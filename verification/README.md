# rymder

A client for the [Agones](https://agones.dev/site/) game server SDK, written
in Verus.

- `src/` is the verified library: the plain data model of the SDK protocol
  messages (`proto`), the strongly typed game server record and the rules that
  build it from the raw one (`sdk::gameserver`), the requests the SDK sends
  (`sdk`), the decisions taken while connecting (`sdk::connect`), the error
  type and its messages (`errors`), small text helpers (`text`), and the
  trusted declarations of the calls into other crates (`foreign`).
- `app/` is the gRPC plumbing around it: the protocol buffer messages and
  tonic clients, the `Sdk` handle whose async methods perform the calls, and
  the formatting traits of the error type.
- `tests/` exercises the library on concrete values.
