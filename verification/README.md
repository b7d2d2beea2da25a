# entangled_client

The verified brain of a client for Entangled, a protocol in which publishers
sign documents and serve them over a carrier such as Tor. A separate document
verifier checks signatures and formats. This library makes the decisions that
are left to a client, on plain data and without I/O, and Verus proves that it
makes them as its contracts say.

## Layout

- `src/`: the library.
  - `pipeline`: the order of the verification stages, and the first failing one
    as the diagnostic.
  - `history`: anti-downgrade, canary conflicts and runtime-key rotation.
  - `trust`: the trust states of a publisher, and what is to be persisted.
  - `image`: the policy for fetched images.
  - `io`: the clock and the stores a shell provides; stores in memory.
  - `store`: durable stores apart from the disk: records, protection, opening.
  - `load`: from fetched bytes to what a window shows.
  - `chrome`, `scene`, `viewer`: what that window shows.
  - `protocol`, `text`, `encoding`, `crypto`: the vocabulary, and the calls into
    the crates that encode, hash and encrypt.
- `tests/`: tests on concrete values. They run the outside crates for real.
- `app/`: the viewer: files, JSON, the window, and the document verifier.

## What is trusted

The contracts of the functions marked `external_body`, all in `crypto` and
`encoding`, and of `String::push` in `text`: each names the function it calls
and says what is claimed of it. Key derivation, hashing and encryption have
names without a definition; everything above is proved from what those contracts
say of the names.

The document verifier, the clock, an image decoder and the JSON codecs are
handed in. Nothing is claimed of them: contracts say what they may be asked, and
which outcome follows from each answer they may give.
