# custom_channel

A channel to any upstream that speaks one of the known wire formats, and the
pipeline that gets a client's request there and the response back. The library is written in Verus: what each function does is stated in its
contract and proved.

- `src/channel/custom`: the channel. It routes everything as it is, authenticates
  with an API key or with the access token of a connected account, and can ask
  how much of the account has been used. `laws.rs` states what holds of it as a
  whole.
- `src/channel`: what channels share (URLs, header fields, forms).
- `src/pipeline`: the request of one attempt (`transform.rs`), the way back of a
  response (`response.rs`), and what the attempts at one request share
  (`memo.rs`). The protocol tables, converters and rules of a deployment come in
  through the trait `Wire`, of which nothing is taken for granted. `laws` states
  what holds of all that.
- `src/json.rs`, `src/transport.rs`, `src/text.rs`: what `serde_json`, `bytes`,
  `http` and the standard library are taken to do.
- `app`: the network, the clock, reading answers with `serde`, and the arithmetic
  on amounts, which are doubles.
