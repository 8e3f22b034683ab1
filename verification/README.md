# local_runtime

The agent runtime for models that run on this device or on the private network. It
turns a request of the agent into an OpenAI-compatible chat request, and the completion
into the events that the client applies to its conversation. The decisions are in the
library and are proved with Verus; the program in `app/` does the input and output.

| module | what it holds |
| --- | --- |
| `api`, `params` | messages, tasks, events and requests, each with a view over character sequences |
| `json` | `serde_json` values and what they hold |
| `text` | texts as sequences of characters |
| `definitions` | what a model is told of its tools |
| `tools` | the tool calls of a model: reading them, and showing them again |
| `conversation` | the conversation as a model is shown it |
| `events` | the events that answer a request |
| `ids` | identifiers drawn at random, and the record of the draws |
| `destination` | local and remote hosts, and the form in which an endpoint is entered |
| `request` | the chat request that a request becomes |
| `retry` | when a request is sent again |
| `completion` | what a completion becomes |
| `error` | what the user is told when there is no answer |
| `channel` | the services that the offline build knows of |

What is promised of the library as a whole stands in the public proof functions whose
names begin with `law_`. What is believed of `serde_json`, `reqwest`, `url`, `uuid` and
`str::trim` stands in the doc comment of each item that calls them.

The program reads one request as JSON from standard input and writes the events of the
answer to standard output, one JSON document per line.
