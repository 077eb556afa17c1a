# airpods

A control stack for AirPods on Linux. A user daemon owns the AACP connection, the
virtual microphone, the configuration and the battery values; a command line and a
GTK4 window talk to it over the session D-Bus.

`src/` is the library: packets, parsers, state machines and rules, each function with
a contract that Verus proves. Five contracts are believed instead, since they speak of
code outside the library: `bluer_address` and `bluer_text` in `address` (how bluer reads
and writes an address), and in `text` `decode_lossy` and `to_uppercase` with their names
`utf8_lossy` and `unicode_uppercase`, and `String::push`. `app/` is what surrounds it: sockets, the bus, timers,
the native audio engine and the window. `tests/` runs the library on concrete values.

| Module | What it holds |
| --- | --- |
| `text`, `decibel`, `domain`, `address` | Text, levels as IEEE bit patterns, battery levels, Bluetooth addresses |
| `aacp`, `framing`, `battery` | The AACP protocol, its audio packets, battery notifications and advertisements |
| `ipc`, `config`, `power`, `engine` | The D-Bus values, the settings, the power bridge, the rules of the audio engine |
| `service`, `bluez` | What clients ask of the daemon, and what BlueZ reports |
| `stream`, `lifecycle`, `a2dp` | One attempt to stream, the loop around the attempts, the reset of the A2DP profile |
| `workers` | The inventory of devices and the battery worker |
| `ctl`, `gui_client`, `gui_view`, `sound` | The command line, the client of the window, what the window shows, the sound mode |

Levels are kept as bit patterns, so that the rules about them are exact; `app/` turns
them into numbers. Moments are nanoseconds of a monotonic clock. Proof functions whose
names begin with `law_` state what holds across several functions.
