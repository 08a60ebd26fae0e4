# DoodleIQ agent

The provider-side agent of DoodleIQ, a marketplace where people rent time on AI models run by
independent providers. It runs next to a local model runtime, holds a tunnel to the marketplace
open, meters what consumers use, and reports it in signed receipts.

`src/` is a library whose behaviour is stated in contracts and proved with Verus:

| Module | What it decides |
|---|---|
| `proxy` | what the gateway does with a consumer's request, step by step |
| `grants` | which credential a request shows, whether it is valid, which session is connected |
| `upstream`, `http` | what is sent on to the model runtime, and what goes back |
| `usage`, `meter` | how token usage is asked for, found and counted |
| `receipts`, `identity` | what is reported of a request, and how it is signed |
| `availability`, `heartbeat` | which heartbeat is sent when, and what came of it |
| `pairing`, `tunnel` | how the machine is paired, and how its tunnel is brought up |
| `agent`, `report` | how the agent starts and ends, and what it says of itself |
| `config`, `paths`, `machine`, `models`, `clock`, `json`, `text` | what the others rest on |

Public proof functions named `law_...` state what holds of the library as a whole: that nothing
reaches the runtime without a valid grant, that a request is reported at most once, that a model is
taken off the market only after several observations in a row found none loaded, and others.

Calls into other crates stand behind small functions whose contracts are taken on trust. Each says
in its documentation what it claims of the function that it calls.

`app/` is the program around the library: the command line, files, processes, HTTP in both
directions, and the two places where a number is a float. It performs the calls that the library
asks for and hands back what came of them.

    doodleiq configure --url http://127.0.0.1:11434/v1/models
    doodleiq pair
    doodleiq run
