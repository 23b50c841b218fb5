# sapling_builder

Builds, proves and signs the Sapling part of a Zcash transaction.

A `SaplingBuilder` collects notes to spend and addresses to pay. `build` shuffles them,
pads the outputs with dummies, and gives a bundle with its circuits. `create_proofs`
puts proofs in their place. `prepare`, `sign`, `append_signatures` and `finalize` (or
`apply_signatures`, which does it all) put the signatures in theirs.

The library under `src/` is verified with Verus. A builder always holds the net value of
its spends and outputs: what is refused changes nothing. The contracts
say what the library draws from the generator that is handed in, and in which order.
`src/laws.rs` states what holds of a bundle along the way: that the metadata locates what
was added, and that the keys which a verifier computes from the finished bundle accept its
signatures.

What rests on the hash functions and the note cipher of the protocol comes in through the
trait `Protocol`, and the provers through `SpendProver` and `OutputProver`. Nothing is
assumed of their implementations. Curve arithmetic, RedJubjub signatures and randomness
come from the crates `jubjub`, `redjubjub` and `rand`, behind small wrappers whose doc
comments say what is taken for granted.

`app/` lets the builder be used with any random number generator and with errors that
can be displayed.
