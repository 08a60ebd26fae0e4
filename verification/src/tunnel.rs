//! The connector that holds the tunnel open: where to get it, how to run it, and how to recognise
//! one that was left running.

use vstd::prelude::*;
use vstd::utf8::*;
use crate::paths::connector_name;
use crate::text::{
    decimal, decimal_text, is_blank, is_blank_text, is_white, law_trimming, lemma_decimal_digits,
    lemma_decimal_value, lemma_trimmed_without_white, parse_u32, same_text, trim, trimmed,
    u32_text,
};
use crate::usage::{contains_bytes, has_bytes, law_containing_bytes};

verus! {

/// The name of the connector's release for an operating system and a processor, where there is
/// one that is a single file.
pub open spec fn asset_of(os: Seq<char>, arch: Seq<char>) -> Option<Seq<char>> {
    if os == "linux"@ && arch == "x86_64"@ {
        Some("cloudflared-linux-amd64"@)
    } else if os == "linux"@ && arch == "aarch64"@ {
        Some("cloudflared-linux-arm64"@)
    } else if os == "linux"@ && arch == "arm"@ {
        Some("cloudflared-linux-arm"@)
    } else if os == "linux"@ && arch == "x86"@ {
        Some("cloudflared-linux-386"@)
    } else if os == "windows"@ && arch == "x86_64"@ {
        Some("cloudflared-windows-amd64.exe"@)
    } else if os == "windows"@ && arch == "x86"@ {
        Some("cloudflared-windows-386.exe"@)
    } else {
        None
    }
}

/// The name of the connector's release for an operating system and a processor.
pub fn cloudflared_asset(os: &str, arch: &str) -> (asset: Option<&'static str>)
    ensures
        match asset {
            Some(asset) => asset_of(os@, arch@) == Some(asset@),
            None => asset_of(os@, arch@) is None,
        },
{
    if same_text(os, "linux") {
        proof {
            reveal_strlit("linux");
            reveal_strlit("windows");
            assert("linux"@.len() != "windows"@.len());
        }
        if same_text(arch, "x86_64") {
            Some("cloudflared-linux-amd64")
        } else if same_text(arch, "aarch64") {
            Some("cloudflared-linux-arm64")
        } else if same_text(arch, "arm") {
            Some("cloudflared-linux-arm")
        } else if same_text(arch, "x86") {
            Some("cloudflared-linux-386")
        } else {
            None
        }
    } else if same_text(os, "windows") {
        if same_text(arch, "x86_64") {
            Some("cloudflared-windows-amd64.exe")
        } else if same_text(arch, "x86") {
            Some("cloudflared-windows-386.exe")
        } else {
            None
        }
    } else {
        None
    }
}

/// What a machine without the connector is told.
pub open spec fn missing_text() -> Seq<char> {
    "cloudflared was not found; install it (macOS: `brew install cloudflared`)"@
}

/// What a machine without the connector is told.
fn missing_connector() -> (text: &'static str)
    ensures
        text@ == missing_text(),
{
    "cloudflared was not found; install it (macOS: `brew install cloudflared`)"
}

/// Where the connector's release is downloaded from, if it has to be.
pub open spec fn download_of(
    found: bool,
    os: Seq<char>,
    arch: Seq<char>,
    has_target: bool,
) -> Result<Option<Seq<char>>, Seq<char>> {
    if found {
        Ok(None)
    } else {
        match asset_of(os, arch) {
            Some(asset) => if has_target {
                Ok(
                    Some(
                        "https://github.com/cloudflare/cloudflared/releases/latest/download/"@
                            + asset,
                    ),
                )
            } else {
                Err("unable to determine a cloudflared install path"@)
            },
            None => Err(missing_text()),
        }
    }
}

/// What a download says.
pub open spec fn download_view(download: Result<Option<String>, String>) -> Result<
    Option<Seq<char>>,
    Seq<char>,
> {
    match download {
        Ok(Some(url)) => Ok(Some(url@)),
        Ok(None) => Ok(None),
        Err(error) => Err(error@),
    }
}

/// Where the connector's release is downloaded from, given whether a connector was found and
/// whether there is a place to keep one: nowhere where one was found, and an error where there is
/// no release for this machine or no place to keep it.
pub fn ensure_cloudflared(found: bool, os: &str, arch: &str, has_target: bool) -> (download: Result<
    Option<String>,
    String,
>)
    ensures
        download_view(download) == download_of(found, os@, arch@, has_target),
{
    if found {
        return Ok(None);
    }
    match cloudflared_asset(os, arch) {
        Some(asset) => if has_target {
            let mut url: String =
                "https://github.com/cloudflare/cloudflared/releases/latest/download/".to_owned();
            url.append(asset);
            Ok(Some(url))
        } else {
            Err("unable to determine a cloudflared install path".to_owned())
        },
        None => Err(missing_connector().to_owned()),
    }
}

/// Where the connector is.
#[derive(Debug, Clone, Copy, PartialEq, Eq, Structural)]
pub enum Connector {
    /// At this place in the list of candidates.
    Candidate(usize),
    /// Wherever the system finds it.
    OnPath,
    /// Nowhere.
    Missing,
}

/// Where the connector is, given which candidates exist: at the first that does, else wherever
/// the system finds it, if it does.
pub fn cloudflared_path(exists: &[bool], on_path: bool) -> (connector: Connector)
    ensures
        match connector {
            Connector::Candidate(i) => {
                &&& i < exists@.len()
                &&& exists@[i as int]
                &&& forall|k: int| 0 <= k < i ==> !#[trigger] exists@[k]
            },
            Connector::OnPath => on_path && forall|k: int|
                0 <= k < exists@.len() ==> !#[trigger] exists@[k],
            Connector::Missing => !on_path && forall|k: int|
                0 <= k < exists@.len() ==> !#[trigger] exists@[k],
        },
{
    let mut i: usize = 0;
    while i < exists.len()
        invariant
            i <= exists@.len(),
            forall|k: int| 0 <= k < i ==> !#[trigger] exists@[k],
        decreases exists@.len() - i,
    {
        if exists[i] {
            return Connector::Candidate(i);
        }
        i += 1;
    }
    if on_path {
        Connector::OnPath
    } else {
        Connector::Missing
    }
}

/// The arguments as texts.
pub open spec fn argument_texts(arguments: Seq<String>) -> Seq<Seq<char>> {
    arguments.map_values(|argument: String| argument@)
}

/// The arguments with which the connector is run for a tunnel's token, given whether a connector
/// was found. Without a token or a connector it cannot be run.
pub open spec fn launch_of(tunnel_token: Seq<char>, found: bool) -> Result<
    Seq<Seq<char>>,
    Seq<char>,
> {
    if is_blank_text(tunnel_token) {
        Err("A Cloudflare tunnel token is required"@)
    } else if !found {
        Err(missing_text())
    } else {
        Ok(
            seq![
                "tunnel"@,
                "--no-autoupdate"@,
                "run"@,
                "--token"@,
                trimmed(tunnel_token),
            ],
        )
    }
}

/// What arguments or their error say.
pub open spec fn launch_view(arguments: Result<Vec<String>, String>) -> Result<
    Seq<Seq<char>>,
    Seq<char>,
> {
    match arguments {
        Ok(arguments) => Ok(argument_texts(arguments@)),
        Err(error) => Err(error@),
    }
}

/// The arguments with which the connector is run for a tunnel's token.
pub fn launch_cloudflared(tunnel_token: &str, found: bool) -> (arguments: Result<
    Vec<String>,
    String,
>)
    ensures
        launch_view(arguments) == launch_of(tunnel_token@, found),
{
    if is_blank(tunnel_token) {
        return Err("A Cloudflare tunnel token is required".to_owned());
    }
    if !found {
        return Err(missing_connector().to_owned());
    }
    let mut arguments: Vec<String> = Vec::new();
    arguments.push("tunnel".to_owned());
    arguments.push("--no-autoupdate".to_owned());
    arguments.push("run".to_owned());
    arguments.push("--token".to_owned());
    arguments.push(trim(tunnel_token).to_owned());
    assert(argument_texts(arguments@) =~= seq![
        "tunnel"@,
        "--no-autoupdate"@,
        "run"@,
        "--token"@,
        trimmed(tunnel_token@),
    ]);
    Ok(arguments)
}

/// What came of a launch, given whether the connector is still running a moment later.
pub fn launched(running: bool) -> (result: Result<(), String>)
    ensures
        match result {
            Ok(_) => running,
            Err(error) => !running && error@
                == "cloudflared exited before establishing the managed tunnel"@,
        },
{
    if running {
        Ok(())
    } else {
        Err("cloudflared exited before establishing the managed tunnel".to_owned())
    }
}

/// The arguments to spawn a connector with, unless the one that was launched before is still
/// running: that one is kept.
pub fn spawn_arguments(arguments: Vec<String>, running: bool) -> (spawn: Option<Vec<String>>)
    ensures
        match spawn {
            Some(spawn) => !running && spawn@ == arguments@,
            None => running,
        },
{
    if running {
        None
    } else {
        Some(arguments)
    }
}

/// The record that names a process.
pub fn pid_record(pid: u32) -> (record: String)
    ensures
        record@ == decimal_text(pid as nat),
{
    decimal(pid as u128)
}

/// A record names the process that it was made for.
pub proof fn law_pid_record_reads_back(pid: u32)
    ensures
        u32_text(trimmed(decimal_text(pid as nat))) == Some(pid),
{
    let record = decimal_text(pid as nat);
    lemma_decimal_digits(pid as nat);
    lemma_decimal_value(pid as nat);
    assert forall|i: int| 0 <= i < record.len() implies !is_white(#[trigger] record[i]) by {
        assert('0' <= record[i] <= '9');
    }
    lemma_trimmed_without_white(record);
    assert('0' <= record[0] <= '9');
}

/// The process that a record names, when it names one.
pub fn recorded_pid(contents: &str) -> (pid: Option<u32>)
    ensures
        pid == u32_text(trimmed(contents@)),
{
    parse_u32(trim(contents))
}

/// An ASCII letter in lower case, and any other byte as it is.
pub open spec fn lower(b: u8) -> u8 {
    if 0x41 <= b <= 0x5a {
        (b + 0x20) as u8
    } else {
        b
    }
}

/// The bytes with their ASCII letters in lower case.
pub open spec fn lowered(bytes: Seq<u8>) -> Seq<u8> {
    bytes.map_values(|b: u8| lower(b))
}

/// The bytes with their ASCII letters in lower case.
fn in_lower_case(bytes: &[u8]) -> (lower_case: Vec<u8>)
    ensures
        lower_case@ == lowered(bytes@),
{
    let mut lower_case: Vec<u8> = Vec::new();
    let mut i: usize = 0;
    while i < bytes.len()
        invariant
            i <= bytes@.len(),
            lower_case@ == lowered(bytes@.take(i as int)),
        decreases bytes@.len() - i,
    {
        let b: u8 = bytes[i];
        lower_case.push(
            if 0x41 <= b && b <= 0x5a {
                b + 0x20
            } else {
                b
            },
        );
        i += 1;
        assert(lower_case@ =~= lowered(bytes@.take(i as int)));
    }
    assert(bytes@.take(i as int) =~= bytes@);
    lower_case
}

/// Whether what the system prints of a process says that it is the connector, in letters of
/// either case.
pub open spec fn says_connector(printed: Seq<u8>, windows: bool) -> bool {
    contains_bytes(lowered(printed), encode_utf8(connector_name(windows)))
}

/// Whether what the system prints of a process says that it is the connector.
pub fn pid_is_cloudflared(printed: &[u8], windows: bool) -> (connector: bool)
    ensures
        connector == says_connector(printed@, windows),
{
    let printed: Vec<u8> = in_lower_case(printed);
    if windows {
        has_bytes(printed.as_slice(), "cloudflared.exe".as_bytes())
    } else {
        has_bytes(printed.as_slice(), "cloudflared".as_bytes())
    }
}

/// The process of a connector that an earlier run left behind, given the record and what the
/// system prints of the recorded process, where it prints anything: the recorded process and no
/// other, and only where it is a connector still. A process that has got the same number since is
/// left alone.
pub open spec fn stale_pid(
    contents: Seq<char>,
    printed: Option<Seq<u8>>,
    windows: bool,
) -> Option<u32> {
    match (u32_text(trimmed(contents)), printed) {
        (Some(pid), Some(printed)) => if says_connector(printed, windows) {
            Some(pid)
        } else {
            None
        },
        _ => None,
    }
}

/// The process of a connector that an earlier run left behind.
pub fn stale_connector(contents: &str, printed: Option<&[u8]>, windows: bool) -> (kill: Option<u32>)
    ensures
        kill == stale_pid(
            contents@,
            match printed {
                Some(printed) => Some(printed@),
                None => None,
            },
            windows,
        ),
{
    match (recorded_pid(contents), printed) {
        (Some(pid), Some(printed)) => if pid_is_cloudflared(printed, windows) {
            Some(pid)
        } else {
            None
        },
        _ => None,
    }
}

/// The text that `String::from_utf8_lossy` makes of bytes.
pub uninterp spec fn lossy_text(bytes: Seq<u8>) -> Seq<char>;

/// `std::string::String::from_utf8_lossy`: valid UTF-8 is read as its text, and in other bytes
/// what is invalid is replaced, in a way that depends on the bytes alone.
#[verifier::external_body]
fn read_lossily(bytes: &[u8]) -> (text: String)
    ensures
        text@ == lossy_text(bytes@),
        valid_utf8(bytes@) ==> encode_utf8(text@) == bytes@,
{
    String::from_utf8_lossy(bytes).into_owned()
}

/// The connector's version, by what it printed when asked, when that succeeded.
pub fn connector_version(succeeded: bool, printed: &[u8]) -> (version: Option<String>)
    ensures
        match version {
            Some(version) => {
                &&& succeeded
                &&& version@ == trimmed(lossy_text(printed@))
                &&& valid_utf8(printed@) ==> version@ == trimmed(decode_utf8(printed@))
            },
            None => !succeeded,
        },
{
    if !succeeded {
        return None;
    }
    let text: String = read_lossily(printed);
    proof {
        encode_utf8_decode_utf8(text@);
    }
    Some(trim(text.as_str()).to_owned())
}

/// What is known of the connector.
#[derive(Debug)]
pub struct CloudflaredStatus {
    pub installed: bool,
    pub running: bool,
    pub version: Option<String>,
    pub path: Option<String>,
}

// ---------------------------------------------------------------------------------------------
// What is known of the connector
// ---------------------------------------------------------------------------------------------

/// The connector's releases: four for Linux and two for Windows, by the processor, and none for
/// any other machine.
pub proof fn law_releases(os: Seq<char>, arch: Seq<char>)
    ensures
        asset_of("linux"@, "x86_64"@) == Some("cloudflared-linux-amd64"@),
        asset_of("linux"@, "aarch64"@) == Some("cloudflared-linux-arm64"@),
        asset_of("linux"@, "arm"@) == Some("cloudflared-linux-arm"@),
        asset_of("linux"@, "x86"@) == Some("cloudflared-linux-386"@),
        asset_of("windows"@, "x86_64"@) == Some("cloudflared-windows-amd64.exe"@),
        asset_of("windows"@, "x86"@) == Some("cloudflared-windows-386.exe"@),
        os != "linux"@ && os != "windows"@ ==> asset_of(os, arch) is None,
        os == "linux"@ && arch != "x86_64"@ && arch != "aarch64"@ && arch != "arm"@ && arch
            != "x86"@ ==> asset_of(os, arch) is None,
        os == "windows"@ && arch != "x86_64"@ && arch != "x86"@ ==> asset_of(os, arch) is None,
{
    reveal_strlit("linux");
    reveal_strlit("windows");
    reveal_strlit("x86_64");
    reveal_strlit("aarch64");
    reveal_strlit("arm");
    reveal_strlit("x86");
    assert("linux"@.len() == 5 && "windows"@.len() == 7);
    assert("x86_64"@.len() == 6 && "aarch64"@.len() == 7);
    assert("arm"@.len() == 3 && "x86"@.len() == 3);
    assert("arm"@[0] != "x86"@[0]);
}

/// A connector that was found is not downloaded. Another is downloaded from the latest release for
/// this machine, where there is one and a place to keep it, and otherwise the error says which is
/// missing.
pub proof fn law_downloads(os: Seq<char>, arch: Seq<char>, has_target: bool, asset: Seq<char>)
    ensures
        download_of(true, os, arch, has_target) == Ok::<Option<Seq<char>>, Seq<char>>(None),
        asset_of(os, arch) == Some(asset) ==> download_of(false, os, arch, true) == Ok::<
            Option<Seq<char>>,
            Seq<char>,
        >(Some("https://github.com/cloudflare/cloudflared/releases/latest/download/"@ + asset)),
        asset_of(os, arch) == Some(asset) ==> download_of(false, os, arch, false) == Err::<
            Option<Seq<char>>,
            Seq<char>,
        >("unable to determine a cloudflared install path"@),
        asset_of(os, arch) is None ==> download_of(false, os, arch, has_target) == Err::<
            Option<Seq<char>>,
            Seq<char>,
        >("cloudflared was not found; install it (macOS: `brew install cloudflared`)"@),
        missing_text()
            == "cloudflared was not found; install it (macOS: `brew install cloudflared`)"@,
{
}

/// A process is the connector wherever what is printed of it has the connector's name in it, in
/// letters of either case.
pub proof fn law_connector_is_recognised(
    head: Seq<u8>,
    spelt: Seq<u8>,
    tail: Seq<u8>,
    windows: bool,
)
    requires
        ({
            let name = if windows {
                encode_utf8("cloudflared.exe"@)
            } else {
                encode_utf8("cloudflared"@)
            };
            &&& spelt.len() == name.len()
            &&& forall|i: int|
                0 <= i < name.len() ==> #[trigger] spelt[i] == name[i] || (0x41 <= spelt[i] <= 0x5a
                    && spelt[i] + 0x20 == name[i])
        }),
    ensures
        says_connector(head + spelt + tail, windows),
{
    reveal_strlit("cloudflared.exe");
    reveal_strlit("cloudflared");
    let text = connector_name(windows);
    let name = encode_utf8(text);
    assert(is_ascii_chars(text));
    is_ascii_chars_encode_utf8(text);
    assert forall|i: int| 0 <= i < name.len() implies lowered(spelt)[i] == name[i] by {
        assert(spelt[i] == name[i] || (0x41 <= spelt[i] <= 0x5a && spelt[i] + 0x20 == name[i]));
        assert(text[i] as u8 == name[i]);
        assert(!('A' <= text[i] <= 'Z'));
    }
    assert(lowered(spelt) =~= name);
    assert(lowered(head + spelt + tail) =~= lowered(head) + name + lowered(tail));
    law_containing_bytes(lowered(head), name, lowered(tail), Seq::empty());
}

/// A process is taken for the connector only where what is printed of it has the connector's name
/// in it, once its letters are in lower case.
pub proof fn law_nothing_else_is_the_connector(printed: Seq<u8>, windows: bool)
    requires
        says_connector(printed, windows),
    ensures
        windows ==> exists|head: Seq<u8>, tail: Seq<u8>|
            lowered(printed) == #[trigger] (head + encode_utf8("cloudflared.exe"@) + tail),
        !windows ==> exists|head: Seq<u8>, tail: Seq<u8>|
            lowered(printed) == #[trigger] (head + encode_utf8("cloudflared"@) + tail),
{
    let none = Seq::<u8>::empty();
    law_containing_bytes(none, encode_utf8(connector_name(windows)), none, lowered(printed));
}

/// Letters are put in lower case one by one, the ASCII capitals and nothing else.
pub proof fn law_lower_case(bytes: Seq<u8>, i: int)
    ensures
        lowered(bytes).len() == bytes.len(),
        0 <= i < bytes.len() && 0x41 <= bytes[i] <= 0x5a ==> lowered(bytes)[i] == bytes[i] + 0x20,
        0 <= i < bytes.len() && !(0x41 <= bytes[i] <= 0x5a) ==> lowered(bytes)[i] == bytes[i],
{
}

/// Arguments and downloads are taken for what they hold.
pub proof fn law_tunnel_values(arguments: Seq<String>, i: int, text: String)
    ensures
        argument_texts(arguments).len() == arguments.len(),
        0 <= i < arguments.len() ==> argument_texts(arguments)[i] == arguments[i]@,
        download_view(Ok(Some(text))) == Ok::<Option<Seq<char>>, Seq<char>>(Some(text@)),
        download_view(Ok(None)) == Ok::<Option<Seq<char>>, Seq<char>>(None),
        download_view(Err(text)) == Err::<Option<Seq<char>>, Seq<char>>(text@),
{
}

/// The connector is run with the token that it is given, without the whitespace around it, and
/// with the words that make it run a tunnel and leave its own version alone. Without a token it is
/// not run, nor without a connector.
pub proof fn law_launch(before: Seq<char>, token: Seq<char>, after: Seq<char>, found: bool)
    requires
        forall|i: int| 0 <= i < before.len() ==> is_white(#[trigger] before[i]),
        forall|i: int| 0 <= i < after.len() ==> is_white(#[trigger] after[i]),
        token.len() > 0 ==> !is_white(token[0]) && !is_white(token[token.len() - 1]),
    ensures
        token.len() > 0 ==> (launch_of(before + token + after, true) matches Ok(arguments) && {
            &&& arguments.len() == 5
            &&& arguments[0] == "tunnel"@
            &&& arguments[1] == "--no-autoupdate"@
            &&& arguments[2] == "run"@
            &&& arguments[3] == "--token"@
            &&& arguments[4] == token
        }),
        token.len() > 0 ==> launch_of(before + token + after, false) == Err::<
            Seq<Seq<char>>,
            Seq<char>,
        >("cloudflared was not found; install it (macOS: `brew install cloudflared`)"@),
        token.len() == 0 ==> launch_of(before + token + after, found) == Err::<
            Seq<Seq<char>>,
            Seq<char>,
        >("A Cloudflare tunnel token is required"@),
{
    law_trimming(before, token, after);
}

/// Of a process that was recorded, and of no other, it is asked whether to end it: it is ended
/// where what is printed of it says that it is the connector, and left alone where it says
/// anything else or nothing is printed. A record that names no process ends none.
pub proof fn law_stale_connector(
    before: Seq<char>,
    pid: u32,
    after: Seq<char>,
    contents: Seq<char>,
    printed: Seq<u8>,
    windows: bool,
)
    requires
        forall|i: int| 0 <= i < before.len() ==> is_white(#[trigger] before[i]),
        forall|i: int| 0 <= i < after.len() ==> is_white(#[trigger] after[i]),
    ensures
        ({
            let record = before + decimal_text(pid as nat) + after;
            &&& says_connector(printed, windows) ==> stale_pid(record, Some(printed), windows)
                == Some(pid)
            &&& !says_connector(printed, windows) ==> stale_pid(
                record,
                Some(printed),
                windows,
            ) is None
            &&& stale_pid(record, None, windows) is None
        }),
        u32_text(trimmed(contents)) is None ==> stale_pid(contents, Some(printed), windows) is None,
{
    let record = decimal_text(pid as nat);
    law_pid_record_reads_back(pid);
    lemma_decimal_digits(pid as nat);
    assert('0' <= record[0] <= '9');
    assert('0' <= record[record.len() - 1] <= '9');
    law_trimming(before, record, after);
    assert forall|i: int| 0 <= i < record.len() implies !is_white(#[trigger] record[i]) by {
        assert('0' <= record[i] <= '9');
    }
    lemma_trimmed_without_white(record);
}

/// Arguments or their error are taken for what they hold.
pub proof fn law_launch_values(arguments: Vec<String>, error: String)
    ensures
        launch_view(Ok(arguments)) == Ok::<Seq<Seq<char>>, Seq<char>>(argument_texts(arguments@)),
        launch_view(Err(error)) == Err::<Seq<Seq<char>>, Seq<char>>(error@),
{
}

} // verus!
