//! What holds of creating proofs, said of the circuits that go in and of the bundle that comes
//! out.

use crate::bundle::Bundle;
use crate::in_progress::{InProgress, InProgressSignatures, Proven, Unproven};
use crate::prover::{
    draw_output_proof, draw_spend_proof, output_proof_drawn, spend_proof_drawn, OutputProver,
    SpendProver,
};
use crate::proving::{
    now_proven, output_now_proven, outputs_now_proven, spend_now_proven, spends_now_proven,
    step_done,
};
use crate::random::Drawn;
use rand::rngs::StdRng;
use vstd::prelude::*;

verus! {

/// Creating proofs keeps what a bundle makes public: every field of every spend and output but
/// for the circuit, their number and order, the value balance, and the state of the signatures.
pub proof fn law_proofs_keep_everything_else<
    S: InProgressSignatures,
    V,
    SP: SpendProver,
    OP: OutputProver,
>(
    spend_prover: SP,
    output_prover: OP,
    start: StdRng,
    before: Bundle<InProgress<Unproven, S>, V>,
    after: Bundle<InProgress<Proven, S>, V>,
    end: StdRng,
)
    requires
        now_proven(spend_prover, output_prover, start, before, after, end),
    ensures
        after.shielded_spends@.len() == before.shielded_spends@.len(),
        forall|i: int|
            0 <= i < before.shielded_spends@.len() ==> (#[trigger] after.shielded_spends@[i]).cv
                == before.shielded_spends@[i].cv && after.shielded_spends@[i].anchor
                == before.shielded_spends@[i].anchor && after.shielded_spends@[i].nullifier
                == before.shielded_spends@[i].nullifier && after.shielded_spends@[i].rk
                == before.shielded_spends@[i].rk && after.shielded_spends@[i].spend_auth_sig
                == before.shielded_spends@[i].spend_auth_sig,
        after.shielded_outputs@.len() == before.shielded_outputs@.len(),
        forall|i: int|
            0 <= i < before.shielded_outputs@.len() ==> (#[trigger] after.shielded_outputs@[i]).cv
                == before.shielded_outputs@[i].cv && after.shielded_outputs@[i].cmu
                == before.shielded_outputs@[i].cmu && after.shielded_outputs@[i].ephemeral_key
                == before.shielded_outputs@[i].ephemeral_key
                && after.shielded_outputs@[i].enc_ciphertext
                == before.shielded_outputs@[i].enc_ciphertext
                && after.shielded_outputs@[i].out_ciphertext
                == before.shielded_outputs@[i].out_ciphertext,
        after.value_balance == before.value_balance,
        after.authorization.sigs() == before.authorization.sigs(),
{
}

/// The item stands at this index.
pub open spec fn is_at<T>(items: Seq<T>, index: int, item: T) -> bool {
    0 <= index < items.len() && items[index] == item
}

/// Every proof is made by the prover for the circuit that stood in its place, with the one
/// generator: for the spends in order, and then for the outputs in order, and the generator is
/// used for nothing else. What stands in the bundle is the encoded proof. Returned are the
/// proofs of the spends and of the outputs, and the generator before each of them and after
/// the last.
pub proof fn law_proofs_are_made_in_order<
    S: InProgressSignatures,
    V,
    SP: SpendProver,
    OP: OutputProver,
>(
    spend_prover: SP,
    output_prover: OP,
    start: StdRng,
    before: Bundle<InProgress<Unproven, S>, V>,
    after: Bundle<InProgress<Proven, S>, V>,
    end: StdRng,
) -> (made: (Seq<SP::Proof>, Seq<OP::Proof>, Seq<StdRng>))
    requires
        now_proven(spend_prover, output_prover, start, before, after, end),
    ensures
        made.0.len() == before.shielded_spends@.len(),
        made.1.len() == before.shielded_outputs@.len(),
        made.2.len() == made.0.len() + made.1.len() + 1,
        made.2[0] == start,
        made.2.last() == end,
        forall|i: int, p: SP::Proof| #[trigger]
            is_at(made.0, i, p) ==> exists|used: &mut StdRng|
                *used == made.2[i] && *final(used) == made.2[i + 1] && #[trigger] call_ensures(
                    SP::create_proof,
                    (&spend_prover, before.shielded_spends@[i].zkproof, used),
                    p,
                ),
        forall|i: int|
            0 <= i < made.0.len() ==> call_ensures(
                SP::encode_proof,
                (#[trigger] made.0[i],),
                after.shielded_spends@[i].zkproof,
            ),
        forall|i: int, p: OP::Proof| #[trigger]
            is_at(made.1, i, p) ==> exists|used: &mut StdRng|
                *used == made.2[made.0.len() + i] && *final(used) == made.2[made.0.len() + i + 1]
                    && #[trigger] call_ensures(
                    OP::create_proof,
                    (&output_prover, before.shielded_outputs@[i].zkproof, used),
                    p,
                ),
        forall|i: int|
            0 <= i < made.1.len() ==> call_ensures(
                OP::encode_proof,
                (#[trigger] made.1[i],),
                after.shielded_outputs@[i].zkproof,
            ),
{
    let (first, second) = choose|first: Seq<StdRng>, second: Seq<StdRng>|
        {
            &&& first[0] == start
            &&& #[trigger] spends_now_proven(
                spend_prover,
                first,
                before.shielded_spends@,
                after.shielded_spends@,
            )
            &&& second[0] == first.last()
            &&& #[trigger] outputs_now_proven(
                output_prover,
                second,
                before.shielded_outputs@,
                after.shielded_outputs@,
            )
            &&& second.last() == end
        };
    let n = before.shielded_spends@.len();
    let states = first + second.skip(1);
    let spends = Seq::new(
        n,
        |i: int|
            choose|made: SP::Proof| #[trigger]
                spend_proof_drawn(
                    first[i],
                    spend_prover,
                    before.shielded_spends@[i].zkproof,
                    made,
                    first[i + 1],
                ) && call_ensures(
                    SP::encode_proof,
                    (made,),
                    after.shielded_spends@[i].zkproof,
                ),
    );
    let outputs = Seq::new(
        before.shielded_outputs@.len(),
        |i: int|
            choose|made: OP::Proof| #[trigger]
                output_proof_drawn(
                    second[i],
                    output_prover,
                    before.shielded_outputs@[i].zkproof,
                    made,
                    second[i + 1],
                ) && call_ensures(
                    OP::encode_proof,
                    (made,),
                    after.shielded_outputs@[i].zkproof,
                ),
    );
    let made = (spends, outputs, states);
    assert forall|i: int, p: SP::Proof| #[trigger] is_at(made.0, i, p) implies exists|
        used: &mut StdRng,
    |
        *used == made.2[i] && *final(used) == made.2[i + 1] && #[trigger] call_ensures(
            SP::create_proof,
            (&spend_prover, before.shielded_spends@[i].zkproof, used),
            p,
        ) by {
        assert(spend_now_proven(
            spend_prover,
            first[i],
            before.shielded_spends@[i],
            after.shielded_spends@[i],
            first[i + 1],
        ));
        assert(call_ensures(
            draw_spend_proof::<SP>,
            (&spend_prover, before.shielded_spends@[i].zkproof, first[i]),
            Drawn { value: made.0[i], rng: first[i + 1] },
        ));
        let used = choose|used: &mut StdRng|
            *used == first[i] && *final(used) == first[i + 1] && #[trigger] call_ensures(
                SP::create_proof,
                (&spend_prover, before.shielded_spends@[i].zkproof, used),
                made.0[i],
            );
        assert(call_ensures(
            SP::create_proof,
            (&spend_prover, before.shielded_spends@[i].zkproof, used),
            made.0[i],
        ));
    }
    assert forall|i: int| 0 <= i < made.0.len() implies call_ensures(
        SP::encode_proof,
        (#[trigger] made.0[i],),
        after.shielded_spends@[i].zkproof,
    ) by {
        assert(spend_now_proven(
            spend_prover,
            first[i],
            before.shielded_spends@[i],
            after.shielded_spends@[i],
            first[i + 1],
        ));
    }
    assert forall|i: int, p: OP::Proof| #[trigger] is_at(made.1, i, p) implies exists|
        used: &mut StdRng,
    |
        *used == made.2[made.0.len() + i] && *final(used) == made.2[made.0.len() + i + 1]
            && #[trigger] call_ensures(
            OP::create_proof,
            (&output_prover, before.shielded_outputs@[i].zkproof, used),
            p,
        ) by {
        assert(output_now_proven(
            output_prover,
            second[i],
            before.shielded_outputs@[i],
            after.shielded_outputs@[i],
            second[i + 1],
        ));
        assert(made.2[n + i] == second[i]) by {
            if i > 0 {
                assert(second.skip(1)[i - 1] == second[i]);
            }
        }
        assert(made.2[n + i + 1] == second[i + 1]) by {
            assert(second.skip(1)[i] == second[i + 1]);
        }
        assert(call_ensures(
            draw_output_proof::<OP>,
            (&output_prover, before.shielded_outputs@[i].zkproof, second[i]),
            Drawn { value: made.1[i], rng: second[i + 1] },
        ));
        let used = choose|used: &mut StdRng|
            *used == second[i] && *final(used) == second[i + 1] && #[trigger] call_ensures(
                OP::create_proof,
                (&output_prover, before.shielded_outputs@[i].zkproof, used),
                made.1[i],
            );
        assert(call_ensures(
            OP::create_proof,
            (&output_prover, before.shielded_outputs@[i].zkproof, used),
            made.1[i],
        ));
    }
    assert forall|i: int| 0 <= i < made.1.len() implies call_ensures(
        OP::encode_proof,
        (#[trigger] made.1[i],),
        after.shielded_outputs@[i].zkproof,
    ) by {
        assert(output_now_proven(
            output_prover,
            second[i],
            before.shielded_outputs@[i],
            after.shielded_outputs@[i],
            second[i + 1],
        ));
    }
    made
}

/// After the first of some steps one is done, and after each of the others one more than
/// before.
pub proof fn law_steps_are_counted(steps: int, index: int, done: u32)
    ensures
        step_done(steps, index, done) <==> 0 <= index < steps && done - 1 == index,
{
}

} // verus!
