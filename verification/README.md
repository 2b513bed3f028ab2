# immortal-lab

The wallet side of a laboratory for funded swaps between Bitcoin, Lightning and Liquid. The library
decides; it does no input or output. What it decides is stated in contracts and proved with Verus.

- `src/` holds the library. Each journey (a submarine, reverse, chain or Liquid swap, a joint
  signature, the preparation of a loss and the recovery from it) is a machine: `action` says what is
  to be done next, `advance` takes what came of it. The rules that the machines rest on are functions
  of their own: amounts, hexadecimal, documents, records, contracts, exits, fees, terminal evidence,
  private files, the direct recovery channel and the process without keys.
- `tests/` runs the library on concrete values.
- `app/` is the program around it: sockets, files, nodes, the wallet and the client engine. It performs
  the actions of the machines and hands back what came of them. It starts every journey but that of a
  joint signature.
