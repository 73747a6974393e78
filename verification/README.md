# yclip

`yclip` shares the clipboard of one machine with others. Invoke `yclip` to start a server; it logs
a command of the form `yclip <host>:<port>` that connects to it from elsewhere on the network. Once
connected, texts and images copied on one machine can be pasted on the other.

```
Usage: yclip [OPTIONS] [SOCKET]

Arguments:
  [SOCKET]  Connect to the yclip server running on this socket address

Options:
  -i, --poll-interval <POLL_INTERVAL>  Frequency in ms with which to actually poll for
                                       clipboard changes [default: 10000]
  -p, --password <PASSWORD>            Encrypt clipboards using this password. Compile with
                                       the environment variable YCLIP_FORCE_SECURE set to
                                       make this mandatory
  -v, --verbose...                     Increase verbosity (defaults to INFO and above)
  -h, --help                           Print help
  -V, --version                        Print version
```

## Layout

The library in `src/` is verified with Verus:

- `secure`: the handshake that a password opens, as two state machines, and encrypted sessions;
- `wire`: the form of clipboards on the wire;
- `link`: what a connection makes of the bytes that come from its peer;
- `connection`: sending clipboards to a peer, and reading them from it;
- `delivery`: the proof that what is sent arrives, in order;
- `clipboard`: what a clipboard holds, and which of its changes are news;
- `watch`: what to do when the local clipboard or a peer has something new;
- `cli`: the command line;
- `bytes`, `decimal`: numbers as bytes and as text;
- `outside`: the calls into `snow`, `zstd`, `argon2`, `rand`, `rustc-hash`, `enum-map` and the
  standard library that the proofs rest on, each with what is claimed of it.

The program in `app/` moves the bytes: sockets, the system clipboard, the log and the arguments.

## What is proved

Any peer that has finished the handshake, and has read what was sent so far, reads every further
clipboard out of the bytes that sending it wrote, in order and in whatever parts they come, and is
then ready for the next one, unless decompression runs out of memory. Only an image whose pixels are
out of proportion to its dimensions is exempt: it can be too long for the one chunk that a message
that is not compressed has.

What is copied is reported, unless it has the kind and the hash of what was reported or set just
before. A clipboard that came from a peer is not reported as a local change, and is what the other
peers are sent next.

## Encryption

Sessions use ChaCha20-Poly1305, with keys derived from the password by the NNpsk0 handshake of the
Noise protocol. Without a password, what goes over the network is still encrypted, but anyone can
connect.

## macOS

There, the clipboard's change count is polled, through `cocoa`, which builds on no other system. The
interval is 200 ms, and can be set by the environment variable `YCLIP_MACOS_POLL_INTERVAL_MILLIS`.
