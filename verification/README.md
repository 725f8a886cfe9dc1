# shurectl

A verified protocol engine for Shure USB microphones and interfaces: MVX2U,
MVX2U Gen 2, MV6, MV7 and MV7+.

The library in `src/` decides what is sent to a device and what is made of the
answers; it performs no I/O itself. An operation hands out one action at a time
and takes the outcome back as an event, until it is done.

| module | holds |
|---|---|
| `model` | the models and their USB identifiers |
| `command` | the commands of the binary and the text protocol |
| `plan` | which features make up the state of each model |
| `enumerate` | finding and choosing among the attached devices |
| `exchange` | actions, events and pending operations |
| `progress` | how an operation proceeds with each event |
| `run` | what whole operations come to, for every course of events |
| `laws` | what holds of every operation |
| `device` | the device and the operations on it |
| `error` | errors and their messages |
| `text` | number formatting and report decoding |

`app/` runs the library on hidapi. The packet codec is a parameter of it
(`codec::Protocol`): the library speaks of commands and responses, the codec of
their bytes.
