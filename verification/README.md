# asserter-consumer

A Soroban contract that posts assertions to a Tholos instance under its own address, written in
Verus: what each entry point asks of the host, leaves in storage and returns is stated in its
contract and proved, from what is stated without proof of the functions of `soroban_sdk` in
`src/host.rs`.

- `src/consumer.rs`: the entry points.
- `src/call.rs`: the calls of other contracts that it makes or authorizes.
- `src/error.rs`: the contract's errors, and what becomes of Tholos's replies.
- `src/tholos.rs`: what is known of Tholos: its replies and its errors.
- `src/config.rs`: what the contract keeps in its instance storage, and for how long.
- `src/host.rs`: the host, and the functions of `soroban_sdk` that are trusted.
- `src/laws.rs`: what holds of the contract as a whole.
- `tests/`: the contract on the host of `soroban_sdk`, against a stand-in for Tholos.
- `app/`: the contract as it is deployed. Building it takes the wasm of the Tholos build that it is
  to call, at `target/wasm32v1-none/release/tholos.wasm`.
