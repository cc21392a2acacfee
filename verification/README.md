# hbbft_node

Consensus support for a proof-of-stake node, written in Rust and verified with Verus.

The library under `src/` holds the decisions, with contracts that Verus proves:

- `hbbft_engine`: the Honey Badger BFT engine. Which messages go where, when a block is made, how it
  is sealed and how its seal is checked.
- `consensus`, `network`, `sealing`: the consensus algorithm, the network information and the
  threshold signatures of the `hbbft` crate, as the engine uses them.
- `batch`, `contribution`: what validators put forward, and what they agree on.
- `transition`, `time`: the timer that keeps the consensus going.
- `randomness`: the commit and reveal protocol for on-chain randomness.
- `engine_signer`: signing on behalf of an account of the node.
- `params`, `authority_round`, `hbbft_params`: parameters of a chain specification.
- `fetch`: an HTTP fetch client. Redirects, limits and reading of bodies.

What runs the decisions stands under `app/`: threads, sockets, timers, locks and JSON.
