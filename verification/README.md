# bpfcontain

The decisions behind BPFContain, a container security daemon built on eBPF, verified with Verus.

The library in `src/` decides; it performs no I/O. What is done outside of it is asked for as an
action and reported back as an event, so that each contract holds whatever the kernel, the file
system or a subscriber's connection answers.

| Module        | What it decides                                                              |
| ------------- | ---------------------------------------------------------------------------- |
| `symbols`     | the address of a function in an object file                                  |
| `uprobes`     | which uprobes are attached, where, in which order, and what may be missing   |
| `globals`     | the global variables that the BPF programs are loaded with                   |
| `startup`     | how the BPF objects are opened, loaded and attached, and how that can fail   |
| `bpf_program` | the work loop, and the results of loading and unloading policies             |
| `policies`    | which files below a directory are policies, and in which order they are tried |
| `pubsub`      | who is subscribed to which security audit events, and what ends that          |
| `failure`     | what a failed operation says of what was being attempted                     |
| `text`        | when two texts are the same, and how a number is written                     |

Proof functions whose names begin with `law_` state what holds of whole runs: of startup from its
first action to its last, of every uprobe, of every file below a directory, and of any history of
subscriptions.

One outside function is trusted for what it gives back: `object::File::parse`, together with the
symbol tables of the file that it gives. What the bytes of a file give is the same wherever in memory
they are, and whatever the width of a pointer.

`app/` is the daemon around the library: the JSON-RPC service, the loop that carries out the
library's actions, and the file system.
