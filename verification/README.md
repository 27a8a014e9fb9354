# tun_framed

Framed packet I/O over a TUN/TAP device: a codec turns the packets of a device into
frames and frames into packets, with and without segmentation offload.

The library under `src/` is verified with Verus. It holds the logic and does no I/O:
reading and writing are state machines that say what the device has to do next and are
told what it did.

| Module     | What it holds                                                        |
|------------|----------------------------------------------------------------------|
| `buffer`   | the buffers of the `bytes` crate as sequences of bytes (trusted)      |
| `error`    | faults, and how they become I/O errors                               |
| `sizing`   | how large the buffers for a device are                               |
| `codec`    | `Decoder`, `Encoder`, and `BytesCodec`                               |
| `splitter` | splitting one offloaded read into packets                            |
| `arena`    | gathering packets to be coalesced and written                        |
| `read`     | the reading side                                                     |
| `write`    | the writing side                                                     |
| `framed`   | `DeviceFramed`, `DeviceFramedRead`, `DeviceFramedWrite`              |
| `laws`     | what holds of the library as a whole                                 |

`app/` implements `Stream` and `Sink` on top of it, for any device that implements its
`AsyncDevice` trait.
