//! Where the agent keeps its files.

use vstd::prelude::*;

verus! {

/// The directories that the environment offers, in the order in which they count. A variable
/// that is not set, or that this platform does not have, is `None`.
#[derive(Debug)]
pub struct ConfigDirs<D> {
    /// `DOODLEIQ_CONFIG_DIR`.
    pub chosen: Option<D>,
    /// `APPDATA`, on Windows.
    pub app_data: Option<D>,
    /// `XDG_CONFIG_HOME`.
    pub xdg_config_home: Option<D>,
    /// `HOME`.
    pub home: Option<D>,
}

/// A file or directory: names to follow from a directory.
#[derive(Debug)]
pub struct Location<D> {
    pub root: D,
    pub names: Vec<String>,
}

/// Where a [`Location`] is.
pub struct LocationView<D> {
    pub root: D,
    pub names: Seq<Seq<char>>,
}

/// The names as texts.
pub open spec fn name_texts(names: Seq<String>) -> Seq<Seq<char>> {
    names.map_values(|name: String| name@)
}

impl<D> Location<D> {
    /// Where this location is.
    pub open spec fn view(&self) -> LocationView<D> {
        LocationView { root: self.root, names: name_texts(self.names@) }
    }
}

/// The directory that holds the agent's files: the chosen one itself, else one of the agent's own
/// in the place where the platform keeps configuration.
pub open spec fn directory_of<D>(dirs: ConfigDirs<D>) -> Option<LocationView<D>> {
    match dirs.chosen {
        Some(root) => Some(LocationView { root, names: Seq::empty() }),
        None => match dirs.app_data {
            Some(root) => Some(LocationView { root, names: seq!["DoodleIQ"@] }),
            None => match dirs.xdg_config_home {
                Some(root) => Some(LocationView { root, names: seq!["doodleiq"@] }),
                None => match dirs.home {
                    Some(root) => Some(
                        LocationView { root, names: seq![".config"@, "doodleiq"@] },
                    ),
                    None => None,
                },
            },
        },
    }
}

/// The file `name` in the directory that holds the agent's files.
pub open spec fn file_of<D>(dirs: ConfigDirs<D>, name: Seq<char>) -> Option<LocationView<D>> {
    match directory_of(dirs) {
        Some(directory) => Some(
            LocationView { root: directory.root, names: directory.names.push(name) },
        ),
        None => None,
    }
}

/// Where an optional location is.
pub open spec fn located<D>(location: Option<Location<D>>) -> Option<LocationView<D>> {
    match location {
        Some(location) => Some(location@),
        None => None,
    }
}

/// A location of `root`, then `first` and `second` where they are given, then `name`.
fn location<D>(root: D, first: Option<&str>, second: Option<&str>, name: &str) -> (location:
    Location<D>)
    ensures
        location@.root == root,
        location@.names == (match first {
            Some(first) => seq![first@],
            None => Seq::empty(),
        }) + (match second {
            Some(second) => seq![second@],
            None => Seq::empty(),
        }) + seq![name@],
{
    let mut names: Vec<String> = Vec::new();
    match first {
        Some(first) => names.push(first.to_owned()),
        None => (),
    }
    match second {
        Some(second) => names.push(second.to_owned()),
        None => (),
    }
    names.push(name.to_owned());
    let location: Location<D> = Location { root, names };
    assert(location@.names =~= (match first {
        Some(first) => seq![first@],
        None => Seq::empty(),
    }) + (match second {
        Some(second) => seq![second@],
        None => Seq::empty(),
    }) + seq![name@]);
    location
}

/// The file `name` in the directory that holds the agent's files.
fn file_in<D: Copy>(dirs: &ConfigDirs<D>, name: &str) -> (file: Option<Location<D>>)
    ensures
        located(file) == file_of(*dirs, name@),
{
    let file: Option<Location<D>> = match dirs.chosen {
        Some(root) => Some(location(root, None, None, name)),
        None => match dirs.app_data {
            Some(root) => Some(location(root, Some("DoodleIQ"), None, name)),
            None => match dirs.xdg_config_home {
                Some(root) => Some(location(root, Some("doodleiq"), None, name)),
                None => match dirs.home {
                    Some(root) => Some(location(root, Some(".config"), Some("doodleiq"), name)),
                    None => None,
                },
            },
        },
    };
    proof {
        if file is Some {
            assert(file->Some_0@.names =~= file_of(*dirs, name@)->Some_0.names);
        }
    }
    file
}

/// The error of a machine without a directory for configuration.
pub open spec fn no_directory(home_error: Seq<char>) -> Seq<char> {
    "Unable to locate the config directory: "@ + home_error
}

/// Where a location or an error stands for a file that must be found.
pub open spec fn found_or<D>(
    file: Option<LocationView<D>>,
    home_error: Seq<char>,
) -> Result<LocationView<D>, Seq<char>> {
    match file {
        Some(file) => Ok(file),
        None => Err(no_directory(home_error)),
    }
}

/// What a result says.
pub open spec fn located_result<D>(result: Result<Location<D>, String>) -> Result<
    LocationView<D>,
    Seq<char>,
> {
    match result {
        Ok(location) => Ok(location@),
        Err(error) => Err(error@),
    }
}

/// The file `name` in the directory that holds the agent's files. Without one it is an error,
/// which names why `HOME` could not be read.
fn required_file<D: Copy>(dirs: &ConfigDirs<D>, home_error: &str, name: &str) -> (file: Result<
    Location<D>,
    String,
>)
    ensures
        located_result(file) == found_or(file_of(*dirs, name@), home_error@),
{
    match file_in(dirs, name) {
        Some(file) => Ok(file),
        None => {
            let mut error: String = "Unable to locate the config directory: ".to_owned();
            error.append(home_error);
            Err(error)
        },
    }
}

/// The configuration file.
pub fn config_path<D: Copy>(dirs: &ConfigDirs<D>, home_error: &str) -> (file: Result<
    Location<D>,
    String,
>)
    ensures
        located_result(file) == found_or(file_of(*dirs, "config.json"@), home_error@),
{
    required_file(dirs, home_error, "config.json")
}

/// The file of the device key.
pub fn device_key_path<D: Copy>(dirs: &ConfigDirs<D>, home_error: &str) -> (file: Result<
    Location<D>,
    String,
>)
    ensures
        located_result(file) == found_or(file_of(*dirs, "device.key"@), home_error@),
{
    required_file(dirs, home_error, "device.key")
}

/// The log file.
pub fn log_file_path<D: Copy>(dirs: &ConfigDirs<D>, home_error: &str) -> (file: Result<
    Location<D>,
    String,
>)
    ensures
        located_result(file) == found_or(file_of(*dirs, "doodleiq.log"@), home_error@),
{
    required_file(dirs, home_error, "doodleiq.log")
}

/// The file that records the process of the connector which the agent launched.
pub fn cloudflared_pid_path<D: Copy>(dirs: &ConfigDirs<D>) -> (file: Option<Location<D>>)
    ensures
        located(file) == file_of(*dirs, "cloudflared.pid"@),
{
    file_in(dirs, "cloudflared.pid")
}

/// The name of the connector's program.
pub open spec fn connector_name(windows: bool) -> Seq<char> {
    if windows {
        "cloudflared.exe"@
    } else {
        "cloudflared"@
    }
}

/// The name of the connector's program.
pub fn cloudflared_binary(windows: bool) -> (name: &'static str)
    ensures
        name@ == connector_name(windows),
{
    if windows {
        "cloudflared.exe"
    } else {
        "cloudflared"
    }
}

/// Where a downloaded connector is kept.
pub fn cloudflared_download_path<D: Copy>(dirs: &ConfigDirs<D>, windows: bool) -> (file: Option<
    Location<D>,
>)
    ensures
        located(file) == file_of(*dirs, connector_name(windows)),
{
    file_in(dirs, cloudflared_binary(windows))
}

/// Where a connector is kept while it is being downloaded.
pub fn cloudflared_partial_path<D: Copy>(dirs: &ConfigDirs<D>) -> (file: Option<Location<D>>)
    ensures
        located(file) == file_of(*dirs, "cloudflared.download"@),
{
    file_in(dirs, "cloudflared.download")
}

/// Where a connector is looked for: beside the agent's own program, where a downloaded one is
/// kept, and in the directories of a package manager, in this order.
pub open spec fn candidates_of<D>(
    beside: Option<D>,
    dirs: ConfigDirs<D>,
    packages: Seq<D>,
    windows: bool,
) -> Seq<LocationView<D>> {
    let own = match beside {
        Some(root) => seq![LocationView { root, names: seq![connector_name(windows)] }],
        None => Seq::empty(),
    };
    let downloaded = match file_of(dirs, connector_name(windows)) {
        Some(file) => seq![file],
        None => Seq::empty(),
    };
    own + downloaded + packages.map_values(
        |root: D| LocationView { root, names: seq!["cloudflared"@] },
    )
}

/// Where a connector is looked for, in this order.
pub fn cloudflared_candidates<D: Copy>(
    beside: Option<D>,
    dirs: &ConfigDirs<D>,
    packages: &[D],
    windows: bool,
) -> (candidates: Vec<Location<D>>)
    ensures
        all_located(candidates@) == candidates_of(beside, *dirs, packages@, windows),
{
    let mut candidates: Vec<Location<D>> = Vec::new();
    match beside {
        Some(root) => {
            let own: Location<D> = location(root, None, None, cloudflared_binary(windows));
            assert(own@.names =~= seq![connector_name(windows)]);
            candidates.push(own);
        },
        None => (),
    }
    match cloudflared_download_path(dirs, windows) {
        Some(file) => candidates.push(file),
        None => (),
    }
    let ghost first = all_located(candidates@);
    assert(first =~= candidates_of(beside, *dirs, Seq::empty(), windows));
    let mut i: usize = 0;
    while i < packages.len()
        invariant
            i <= packages@.len(),
            first == candidates_of(beside, *dirs, Seq::empty(), windows),
            all_located(candidates@) == first + packages@.take(i as int).map_values(
                |root: D| LocationView { root, names: seq!["cloudflared"@] },
            ),
        decreases packages@.len() - i,
    {
        let ghost before = all_located(candidates@);
        let packaged: Location<D> = location(packages[i], None, None, "cloudflared");
        assert(packaged@.names =~= seq!["cloudflared"@]);
        candidates.push(packaged);
        assert(all_located(candidates@) =~= before.push(packaged@));
        assert(packages@.take(i + 1) =~= packages@.take(i as int).push(packages@[i as int]));
        i += 1;
    }
    assert(packages@.take(i as int) =~= packages@);
    assert(all_located(candidates@) =~= candidates_of(beside, *dirs, packages@, windows));
    candidates
}

/// The configuration files of earlier versions, newest first.
pub open spec fn legacy_files<D>(home: Option<D>) -> Seq<LocationView<D>> {
    match home {
        Some(root) => seq![
            LocationView { root, names: seq!["doodleiq"@, "config.json"@] },
            LocationView { root, names: seq!["blindfinder"@, "config.json"@] },
        ],
        None => Seq::empty(),
    }
}

/// Where a list of locations leads.
pub open spec fn all_located<D>(locations: Seq<Location<D>>) -> Seq<LocationView<D>> {
    locations.map_values(|location: Location<D>| location@)
}

/// The configuration files of earlier versions, newest first.
pub fn legacy_config_paths<D: Copy>(home: Option<D>) -> (files: Vec<Location<D>>)
    ensures
        all_located(files@) == legacy_files(home),
{
    let mut files: Vec<Location<D>> = Vec::new();
    match home {
        Some(root) => {
            files.push(location(root, Some("doodleiq"), None, "config.json"));
            files.push(location(root, Some("blindfinder"), None, "config.json"));
            proof {
                let expected = legacy_files(home);
                assert(files@[0]@.names =~= expected[0].names);
                assert(files@[1]@.names =~= expected[1].names);
            }
        },
        None => (),
    }
    assert(all_located(files@) =~= legacy_files(home));
    files
}

/// The agent keeps its files side by side: two files of different names are in the same directory
/// and never the same file.
pub proof fn law_files_are_siblings<D>(dirs: ConfigDirs<D>, a: Seq<char>, b: Seq<char>)
    requires
        a != b,
    ensures
        file_of(dirs, a) is Some <==> file_of(dirs, b) is Some,
        file_of(dirs, a) matches Some(first) ==> {
            let second = file_of(dirs, b)->Some_0;
            &&& first.root == second.root
            &&& first.names.drop_last() == second.names.drop_last()
            &&& first != second
        },
{
    if let Some(directory) = directory_of(dirs) {
        let first = file_of(dirs, a)->Some_0;
        let second = file_of(dirs, b)->Some_0;
        assert(first.names.drop_last() =~= directory.names);
        assert(second.names.drop_last() =~= directory.names);
        assert(first.names.last() == a && second.names.last() == b);
    }
}

/// The agent's files are in the directory that was chosen, or else in a directory of the agent's
/// own: under `APPDATA`, else under `XDG_CONFIG_HOME`, else under `.config` in the home directory.
/// Without any of these there is no place for them.
pub proof fn law_where_files_are<D>(dirs: ConfigDirs<D>, root: D, name: Seq<char>)
    ensures
        dirs.chosen == Some(root) ==> file_of(dirs, name) == Some(
            LocationView { root, names: seq![name] },
        ),
        dirs.chosen is None && dirs.app_data == Some(root) ==> file_of(dirs, name) == Some(
            LocationView { root, names: seq!["DoodleIQ"@, name] },
        ),
        dirs.chosen is None && dirs.app_data is None && dirs.xdg_config_home == Some(root)
            ==> file_of(dirs, name) == Some(LocationView { root, names: seq!["doodleiq"@, name] }),
        dirs.chosen is None && dirs.app_data is None && dirs.xdg_config_home is None && dirs.home
            == Some(root) ==> file_of(dirs, name) == Some(
            LocationView { root, names: seq![".config"@, "doodleiq"@, name] },
        ),
        dirs.chosen is None && dirs.app_data is None && dirs.xdg_config_home is None
            && dirs.home is None ==> file_of(dirs, name) is None,
{
    if let Some(directory) = directory_of(dirs) {
        let names = file_of(dirs, name)->Some_0.names;
        if dirs.chosen is Some {
            assert(names =~= seq![name]);
        } else if dirs.app_data is Some {
            assert(names =~= seq!["DoodleIQ"@, name]);
        } else if dirs.xdg_config_home is Some {
            assert(names =~= seq!["doodleiq"@, name]);
        } else {
            assert(names =~= seq![".config"@, "doodleiq"@, name]);
        }
    }
}

/// A file that must be found is where it is, or the error names why the home directory could not
/// be read.
pub proof fn law_required_files<D>(file: LocationView<D>, home_error: Seq<char>)
    ensures
        found_or(Some(file), home_error) == Ok::<LocationView<D>, Seq<char>>(file),
        found_or(None::<LocationView<D>>, home_error) == Err::<LocationView<D>, Seq<char>>(
            "Unable to locate the config directory: "@ + home_error,
        ),
{
}

/// A connector is looked for beside the agent's program, then where a downloaded one is kept, and
/// then in each directory of a package manager, in their order; a place that there is not is left
/// out.
pub proof fn law_connector_candidates<D>(
    beside: D,
    dirs: ConfigDirs<D>,
    packages: Seq<D>,
    windows: bool,
    i: int,
)
    ensures
        ({
            let program = if windows {
                "cloudflared.exe"@
            } else {
                "cloudflared"@
            };
            let all = candidates_of(Some(beside), dirs, packages, windows);
            let others = candidates_of(None, dirs, packages, windows);
            let kept: nat = if file_of(dirs, program) is Some {
                1
            } else {
                0
            };
            &&& all == seq![LocationView { root: beside, names: seq![program] }] + others
            &&& others.len() == kept + packages.len()
            &&& kept == 1 ==> Some(others[0]) == file_of(dirs, program)
            &&& 0 <= i < packages.len() ==> others[kept + i] == (LocationView {
                root: packages[i],
                names: seq!["cloudflared"@],
            })
        }),
{
    let program = connector_name(windows);
    let all = candidates_of(Some(beside), dirs, packages, windows);
    let others = candidates_of(None, dirs, packages, windows);
    assert(all =~= seq![LocationView { root: beside, names: seq![program] }] + others);
}

/// The connector's program has its name, and the files of earlier versions are in two directories
/// of the home directory, the newer first.
pub proof fn law_known_names<D>(home: D)
    ensures
        connector_name(true) == "cloudflared.exe"@,
        connector_name(false) == "cloudflared"@,
        legacy_files(Some(home)).len() == 2,
        legacy_files(Some(home))[0] == (LocationView {
            root: home,
            names: seq!["doodleiq"@, "config.json"@],
        }),
        legacy_files(Some(home))[1] == (LocationView {
            root: home,
            names: seq!["blindfinder"@, "config.json"@],
        }),
        legacy_files(None::<D>).len() == 0,
{
}

/// A location is taken for what it holds.
pub proof fn law_locations<D>(location: Location<D>, error: String, many: Seq<Location<D>>, i: int)
    ensures
        location@.root == location.root,
        location@.names.len() == location.names@.len(),
        0 <= i < location.names@.len() ==> location@.names[i] == location.names@[i]@,
        located(Some(location)) == Some(location@),
        located(None::<Location<D>>) is None,
        located_result(Ok::<Location<D>, String>(location)) == Ok::<LocationView<D>, Seq<char>>(
            location@,
        ),
        located_result(Err::<Location<D>, String>(error)) == Err::<LocationView<D>, Seq<char>>(
            error@,
        ),
        all_located(many).len() == many.len(),
        0 <= i < many.len() ==> all_located(many)[i] == many[i]@,
{
}

} // verus!
