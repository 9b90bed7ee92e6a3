# filo

The verified core of Filo, a peer-to-peer desktop application.

- `src/` is the library, verified with Verus:
  - `device`: device identifiers (Crockford base32 of the BLAKE3 digest of the
    Ed25519 public key) and their short labels;
  - `encoding`: the base32 and BLAKE3 calls these rest on;
  - `identify`: the device's Ed25519 identity and its PKCS#8 PEM form;
  - `keys`: the transport key pair, its protobuf encoding and peer identifier;
  - `connection`: the device record announced over mDNS and read back;
  - `network`: the command protocol between clients and the network event loop
    (commands, their reactions to transport events, the loop's bookkeeping,
    the shared outcome slot and the client future);
  - `error`: the library's errors.
- `app/` is the application around it: files, the mDNS daemon, the libp2p swarm,
  the async plumbing and the commands the front end calls.
- `tests/` exercises the library on concrete values.
