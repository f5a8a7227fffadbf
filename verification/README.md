# fraxtal_evm

The EVM configuration of a Fraxtal node, verified with Verus. From headers, engine payloads and
block attributes it derives the environment and the context that a block of an OP chain is executed
in.

- `forks`: fork schedules and the EVM specifications that they select
- `env`, `op_env`: settings and block environments, and the calls into `revm` and `alloy_op_evm`
- `block`, `post_exec`, `tx`: headers, payloads, post-execution payloads and transactions
- `executor`, `config`: the configuration itself, `FraxtalEvmConfig`
- `laws`: what holds of environments and contexts as a whole

`app/` connects the library to the types of a node. A node supplies three things there, in
`NodeChain`: its forks, the base fee of the next block, and the search for a post-execution payload.
