//! Types and functions for building Sapling transaction components.

use crate::error::Error;
use crate::keys::{ExtendedSpendingKey, OutgoingViewingKey};
use crate::note::{
    rseed_drawn, same_element, ExtractedNoteCommitment, MerklePath, Note, PaymentAddress, Protocol,
    Zip212Enforcement,
};
use crate::output_info::{output_drawn, SaplingOutputInfo};
use crate::scalar::scalar_drawn;
use crate::signature::spend_verification_key;
use crate::spend_info::{spend_drawn, SpendDescriptionInfo};
use crate::sums::sum;
use crate::value::{trapdoor_drawn, NoteValue, ValueSum};
use rand::rngs::StdRng;
use vstd::prelude::*;

verus! {

/// If there are any shielded inputs, always have at least two shielded outputs, padding
/// with dummy outputs if necessary. See <https://github.com/zcash/zcash/issues/3615>.
pub const MIN_SHIELDED_OUTPUTS: usize = 2;

/// Metadata about a transaction created by a [`SaplingBuilder`].
#[derive(Debug, Clone, PartialEq, Eq)]
pub struct SaplingMetadata {
    pub(crate) spend_indices: Vec<usize>,
    pub(crate) output_indices: Vec<usize>,
}

impl SaplingMetadata {
    /// Where the spends stand in the transaction, in the order in which they were
    /// added.
    pub open(crate) spec fn spend_indices(&self) -> Seq<usize> {
        self.spend_indices@
    }

    /// Where the outputs stand in the transaction, in the order in which they were
    /// added.
    pub open(crate) spec fn output_indices(&self) -> Seq<usize> {
        self.output_indices@
    }

    /// The metadata of a transaction without spends and outputs.
    pub fn empty() -> (metadata: Self)
        ensures
            metadata.spend_indices() == Seq::<usize>::empty(),
            metadata.output_indices() == Seq::<usize>::empty(),
    {
        SaplingMetadata { spend_indices: Vec::new(), output_indices: Vec::new() }
    }

    /// Returns the index within the transaction of the spend description corresponding
    /// to the `n`-th call to [`SaplingBuilder::add_spend`].
    ///
    /// Note positions are randomized when building transactions for indistinguishability.
    /// This means that the transaction consumer cannot assume that e.g. the first spend
    /// they added (via the first call to [`SaplingBuilder::add_spend`]) is the first
    /// spend description in the transaction.
    pub fn spend_index(&self, n: usize) -> (index: Option<usize>)
        ensures
            index == if n < self.spend_indices().len() {
                Some(self.spend_indices()[n as int])
            } else {
                None
            },
    {
        if n < self.spend_indices.len() {
            Some(self.spend_indices[n])
        } else {
            None
        }
    }

    /// Returns the index within the transaction of the output description corresponding
    /// to the `n`-th call to [`SaplingBuilder::add_output`].
    ///
    /// Note positions are randomized when building transactions for indistinguishability.
    /// This means that the transaction consumer cannot assume that e.g. the first output
    /// they added (via the first call to [`SaplingBuilder::add_output`]) is the first
    /// output description in the transaction.
    pub fn output_index(&self, n: usize) -> (index: Option<usize>)
        ensures
            index == if n < self.output_indices().len() {
                Some(self.output_indices()[n as int])
            } else {
                None
            },
    {
        if n < self.output_indices.len() {
            Some(self.output_indices[n])
        } else {
            None
        }
    }
}

/// What a builder holds.
pub struct BuilderState {
    /// The root that the paths of all spends lead to, once there has been one.
    pub anchor: Option<bls12_381::Scalar>,
    /// The net value of the spends and outputs.
    pub value_balance: int,
    pub spends: Seq<SpendDescriptionInfo>,
    pub outputs: Seq<SaplingOutputInfo>,
    pub zip212_enforcement: Zip212Enforcement,
}

/// The values of spends.
pub open spec fn spend_values(spends: Seq<SpendDescriptionInfo>) -> Seq<int> {
    spends.map_values(|spend: SpendDescriptionInfo| spend.note().value@ as int)
}

/// The values of outputs.
pub open spec fn output_values(outputs: Seq<SaplingOutputInfo>) -> Seq<int> {
    outputs.map_values(|output: SaplingOutputInfo| output.note().value@ as int)
}

/// A value balance is an `i64`.
pub open spec fn in_range(value_balance: int) -> bool {
    i64::MIN <= value_balance <= i64::MAX
}

impl BuilderState {
    /// The value balance is that of the spends and outputs that are there.
    pub open spec fn balanced(self) -> bool {
        self.value_balance == sum(spend_values(self.spends)) - sum(output_values(self.outputs))
    }

    /// There is an anchor where there are spends, and the value balance is that of the
    /// spends and outputs, and in range.
    pub open spec fn well_formed(self) -> bool {
        &&& self.anchor is Some <==> self.spends.len() > 0
        &&& self.balanced()
        &&& in_range(self.value_balance)
    }

    /// How many outputs the bundle will have.
    pub open spec fn output_count(self) -> nat {
        if self.spends.len() > 0 && self.outputs.len() < MIN_SHIELDED_OUTPUTS {
            MIN_SHIELDED_OUTPUTS as nat
        } else {
            self.outputs.len()
        }
    }

    /// A spend whose path leads to `root` is refused: paths of earlier spends lead
    /// elsewhere.
    pub open spec fn anchor_differs(self, root: bls12_381::Scalar) -> bool {
        self.anchor is Some && self.anchor->0 != root
    }
}

/// What checking a spend of this value, whose path leads to `root`, answers: the value
/// balance with it.
pub open spec fn spend_checked(
    before: BuilderState,
    root: bls12_381::Scalar,
    value: NoteValue,
) -> Result<int, Error> {
    if before.anchor_differs(root) {
        Err(Error::AnchorMismatch)
    } else if in_range(before.value_balance + value@) {
        Ok(before.value_balance + value@)
    } else {
        Err(Error::InvalidAmount)
    }
}

/// What checking an output of this value answers: the value balance with it.
pub open spec fn output_checked(before: BuilderState, value: NoteValue) -> Result<int, Error> {
    if in_range(before.value_balance - value@) {
        Ok(before.value_balance - value@)
    } else {
        Err(Error::InvalidAmount)
    }
}

/// The builder once a spend is added whose path leads to `root`.
pub open spec fn with_spend(
    before: BuilderState,
    root: bls12_381::Scalar,
    info: SpendDescriptionInfo,
) -> BuilderState {
    BuilderState {
        anchor: Some(root),
        value_balance: before.value_balance + info.note().value@,
        spends: before.spends.push(info),
        ..before
    }
}

/// The builder once an output is added.
pub open spec fn with_output(before: BuilderState, info: SaplingOutputInfo) -> BuilderState {
    BuilderState {
        value_balance: before.value_balance - info.note().value@,
        outputs: before.outputs.push(info),
        ..before
    }
}

/// `converted` is the value balance as a `V`, or the error that it cannot be one.
pub open spec fn balance_converted<V: TryFrom<i64>>(
    value_balance: int,
    converted: Result<V, Error>,
) -> bool {
    match converted {
        Ok(v) => in_range(value_balance) && call_ensures(
            V::try_from,
            (value_balance as i64,),
            Ok::<V, <V as TryFrom<i64>>::Error>(v),
        ),
        Err(e) => e == Error::InvalidAmount && (!in_range(value_balance) || exists|
            refused: <V as TryFrom<i64>>::Error,
        | #[trigger]
            call_ensures(
                V::try_from,
                (value_balance as i64,),
                Err::<V, <V as TryFrom<i64>>::Error>(refused),
            )),
    }
}

/// Collects the spends and outputs of a transaction and builds a bundle from them.
pub struct SaplingBuilder {
    pub(crate) anchor: Option<bls12_381::Scalar>,
    pub(crate) value_balance: ValueSum,
    pub(crate) spends: Vec<SpendDescriptionInfo>,
    pub(crate) outputs: Vec<SaplingOutputInfo>,
    pub(crate) zip212_enforcement: Zip212Enforcement,
}

impl View for SaplingBuilder {
    type V = BuilderState;

    open(crate) spec fn view(&self) -> BuilderState {
        BuilderState {
            anchor: self.anchor,
            value_balance: self.value_balance@,
            spends: self.spends@,
            outputs: self.outputs@,
            zip212_enforcement: self.zip212_enforcement,
        }
    }
}

impl SaplingBuilder {
    /// There is an anchor where there are spends, and the value balance is that of the
    /// spends and outputs, and in range.
    #[verifier::type_invariant]
    pub open(crate) spec fn well_formed(self) -> bool {
        self@.well_formed()
    }

    /// A builder without spends and outputs.
    pub fn new(zip212_enforcement: Zip212Enforcement) -> (builder: Self)
        ensures
            builder@ == (BuilderState {
                anchor: None,
                value_balance: 0,
                spends: Seq::empty(),
                outputs: Seq::empty(),
                zip212_enforcement,
            }),
            builder@.well_formed(),
    {
        SaplingBuilder {
            anchor: None,
            value_balance: ValueSum::zero(),
            spends: Vec::new(),
            outputs: Vec::new(),
            zip212_enforcement,
        }
    }

    /// Returns the list of Sapling inputs that will be consumed by the transaction being
    /// constructed.
    pub fn inputs(&self) -> (inputs: &[SpendDescriptionInfo])
        ensures
            inputs@ == self@.spends,
    {
        self.spends.as_slice()
    }

    /// Returns the Sapling outputs that will be produced by the transaction being constructed
    pub fn outputs(&self) -> (outputs: &[SaplingOutputInfo])
        ensures
            outputs@ == self@.outputs,
    {
        self.outputs.as_slice()
    }

    /// Returns the number of outputs that will be present in the Sapling bundle built by
    /// this builder.
    ///
    /// This may be larger than the number of outputs that have been added to the builder,
    /// depending on whether padding is going to be applied.
    pub fn bundle_output_count(&self) -> (count: usize)
        ensures
            count == self@.output_count(),
            self@.spends.len() == 0 ==> count == self@.outputs.len(),
            self@.spends.len() > 0 && self@.outputs.len() <= 2 ==> count == 2,
            self@.spends.len() > 0 && self@.outputs.len() > 2 ==> count == self@.outputs.len(),
    {
        // This matches the padding behaviour in `Self::build`.
        if self.spends.len() == 0 || self.outputs.len() > MIN_SHIELDED_OUTPUTS {
            self.outputs.len()
        } else {
            MIN_SHIELDED_OUTPUTS
        }
    }

    /// Returns the net value represented by the spends and outputs added to this builder,
    /// or an error if the values added to this builder overflow the range of a Zcash
    /// monetary amount.
    pub fn try_value_balance<V: TryFrom<i64>>(&self) -> (balance: Result<V, Error>)
        ensures
            balance_converted(self@.value_balance, balance),
            self@.well_formed(),
            i64::MIN <= self@.value_balance <= i64::MAX,
            match balance {
                Ok(v) => call_ensures(
                    V::try_from,
                    (self@.value_balance as i64,),
                    Ok::<V, <V as TryFrom<i64>>::Error>(v),
                ),
                Err(error) => error == Error::InvalidAmount && exists|
                    refused: <V as TryFrom<i64>>::Error,
                | #[trigger]
                    call_ensures(
                        V::try_from,
                        (self@.value_balance as i64,),
                        Err::<V, <V as TryFrom<i64>>::Error>(refused),
                    ),
            },
    {
        proof {
            use_type_invariant(self);
        }
        match self.value_balance.to_i64() {
            None => Err(Error::InvalidAmount),
            Some(vb) => match V::try_from(vb) {
                Ok(v) => Ok(v),
                Err(refused) => {
                    assert(call_ensures(
                        V::try_from,
                        (self@.value_balance as i64,),
                        Err::<V, <V as TryFrom<i64>>::Error>(refused),
                    ));
                    Err(Error::InvalidAmount)
                },
            },
        }
    }

    /// Returns the net value represented by the spends and outputs added to this builder.
    pub fn value_balance<V: TryFrom<i64>>(&self) -> (balance: V)
        requires
            forall|refused: <V as TryFrom<i64>>::Error|
                !(#[trigger] call_ensures(
                    V::try_from,
                    (self@.value_balance as i64,),
                    Err::<V, <V as TryFrom<i64>>::Error>(refused),
                )),
        ensures
            balance_converted(self@.value_balance, Ok::<V, Error>(balance)),
            self@.well_formed(),
            i64::MIN <= self@.value_balance <= i64::MAX,
            call_ensures(
                V::try_from,
                (self@.value_balance as i64,),
                Ok::<V, <V as TryFrom<i64>>::Error>(balance),
            ),
    {
        proof {
            use_type_invariant(self);
        }
        self.try_value_balance().expect("we check this when mutating self.value_balance")
    }

    /// Checks that a spend of this value, whose path leads to `root`, can be added, and
    /// returns the value balance with it.
    pub fn check_spend(&self, root: &bls12_381::Scalar, value: NoteValue) -> (balance: Result<
        ValueSum,
        Error,
    >)
        ensures
            match spend_checked(self@, *root, value) {
                Ok(sum) => balance matches Ok(balance) && balance@ == sum,
                Err(error) => balance matches Err(e) && e == error,
            },
            balance is Ok <==> (self@.anchor is None || self@.anchor == Some(*root)) && i64::MIN
                <= self@.value_balance + value@ <= i64::MAX,
            balance matches Ok(balance) ==> balance@ == self@.value_balance + value@,
            balance matches Err(error) ==> error == if self@.anchor is Some && self@.anchor != Some(
                *root,
            ) {
                Error::AnchorMismatch
            } else {
                Error::InvalidAmount
            },
    {
        // Consistency check: all anchors must equal the first one
        if let Some(anchor) = self.anchor {
            if !same_element(root, &anchor) {
                return Err(Error::AnchorMismatch);
            }
        }
        let balance = match self.value_balance.checked_add(value) {
            Some(sum) => sum,
            None => {
                return Err(Error::InvalidAmount);
            },
        };
        match balance.to_i64() {
            Some(_) => Ok(balance),
            None => Err(Error::InvalidAmount),
        }
    }

    /// Checks that an output of this value can be added, and returns the value balance
    /// with it.
    pub fn check_output(&self, value: NoteValue) -> (balance: Result<ValueSum, Error>)
        ensures
            match output_checked(self@, value) {
                Ok(sum) => balance matches Ok(balance) && balance@ == sum,
                Err(error) => balance matches Err(e) && e == error,
            },
            balance is Ok <==> i64::MIN <= self@.value_balance - value@ <= i64::MAX,
            balance matches Ok(balance) ==> balance@ == self@.value_balance - value@,
            balance matches Err(error) ==> error == Error::InvalidAmount,
    {
        proof {
            use_type_invariant(self);
        }
        let balance = match self.value_balance.checked_sub(value) {
            Some(sum) => sum,
            None => {
                return Err(Error::InvalidAddress);
            },
        };
        match balance.to_i64() {
            Some(_) => Ok(balance),
            None => Err(Error::InvalidAmount),
        }
    }

    /// Adds a Sapling note to be spent in this transaction.
    ///
    /// Returns an error if the given Merkle path does not have the same anchor as the
    /// paths for previous Sapling notes. A spend that is refused changes nothing, and
    /// nothing is drawn for it.
    pub fn add_spend<N: Protocol>(
        &mut self,
        rng: &mut StdRng,
        extsk: &ExtendedSpendingKey,
        note: Note,
        merkle_path: MerklePath,
    ) -> (result: Result<(), Error>)
        ensures
            exists|root: bls12_381::Scalar|
                #![trigger spend_checked(old(self)@, root, note.value)]
                root_computed::<N>(note, merkle_path, root) && match spend_checked(
                    old(self)@,
                    root,
                    note.value,
                ) {
                    Ok(_) => {
                        &&& result is Ok
                        &&& exists|info: SpendDescriptionInfo|
                            spend_drawn(*old(rng), *extsk, note, merkle_path, info, *final(rng))
                                && final(self)@ == #[trigger] with_spend(old(self)@, root, info)
                    },
                    Err(error) => {
                        &&& result matches Err(e)
                        &&& e == error
                        &&& final(self)@ == old(self)@
                        &&& *final(rng) == *old(rng)
                    },
                },
            final(self)@.well_formed(),
            exists|root: bls12_381::Scalar, cmu: ExtractedNoteCommitment|
                {
                    &&& call_ensures(N::cmu, (&note,), cmu)
                    &&& #[trigger] call_ensures(N::root, (&merkle_path, &cmu), root)
                    &&& result is Ok <==> (old(self)@.anchor is None || old(self)@.anchor == Some(
                        root,
                    )) && i64::MIN <= old(self)@.value_balance + note.value@ <= i64::MAX
                    &&& result matches Err(error) ==> error == if old(self)@.anchor is Some
                        && old(self)@.anchor != Some(root) {
                        Error::AnchorMismatch
                    } else {
                        Error::InvalidAmount
                    }
                    &&& result is Ok ==> final(self)@.anchor == Some(root)
                },
            result is Err ==> final(self)@ == old(self)@ && *final(rng) == *old(rng),
            result is Ok ==> {
                let added = final(self)@.spends.last();
                &&& final(self)@.value_balance == old(self)@.value_balance + note.value@
                &&& final(self)@.spends == old(self)@.spends.push(added)
                &&& final(self)@.outputs == old(self)@.outputs
                &&& final(self)@.zip212_enforcement == old(self)@.zip212_enforcement
                &&& added.note() == note
                &&& added.merkle_path() == merkle_path
                &&& added.proof_generation_key().ak@ == spend_verification_key(extsk.expsk.ask@)
                &&& added.proof_generation_key().nsk == extsk.expsk.nsk
                &&& exists|between: StdRng| #[trigger]
                    scalar_drawn(*old(rng), added.alpha(), between) && trapdoor_drawn(
                        between,
                        added.rcv(),
                        *final(rng),
                    )
            },
    {
        let cmu = N::cmu(&note);
        let root = N::root(&merkle_path, &cmu);
        assert(root_computed::<N>(note, merkle_path, root));
        let ghost before = self@;
        let value_balance = match self.check_spend(&root, note.value) {
            Ok(balance) => balance,
            Err(e) => {
                proof {
                    use_type_invariant(&*self);
                }
                return Err(e);
            },
        };
        let spend = SpendDescriptionInfo::new_internal(rng, extsk, note, merkle_path);
        let mut builder = SaplingBuilder::new(self.zip212_enforcement);
        core::mem::swap(self, &mut builder);
        proof {
            use_type_invariant(&builder);
            law_added_spend_keeps_balance(before, root, spend);
        }
        let SaplingBuilder { spends, outputs, zip212_enforcement, .. } = builder;
        let mut spends = spends;
        spends.push(spend);
        *self =
        SaplingBuilder { anchor: Some(root), value_balance, spends, outputs, zip212_enforcement };
        assert(self@ == with_spend(before, root, spend));
        Ok(())
    }

    /// Adds a Sapling address to send funds to. An output that is refused changes
    /// nothing; its randomness has been drawn by then.
    pub fn add_output(
        &mut self,
        rng: &mut StdRng,
        ovk: Option<OutgoingViewingKey>,
        to: PaymentAddress,
        value: NoteValue,
        memo: Option<[u8; 512]>,
    ) -> (result: Result<(), Error>)
        ensures
            exists|info: SaplingOutputInfo|
                #![trigger with_output(old(self)@, info)]
                output_drawn(
                    *old(rng),
                    ovk,
                    to,
                    value,
                    memo,
                    old(self)@.zip212_enforcement,
                    info,
                    *final(rng),
                ) && match output_checked(old(self)@, value) {
                    Ok(_) => result is Ok && final(self)@ == with_output(old(self)@, info),
                    Err(error) => {
                        &&& result matches Err(e)
                        &&& e == error
                        &&& final(self)@ == old(self)@
                    },
                },
            final(self)@.well_formed(),
            result is Ok <==> i64::MIN <= old(self)@.value_balance - value@ <= i64::MAX,
            result matches Err(error) ==> error == Error::InvalidAmount,
            result is Err ==> final(self)@ == old(self)@,
            result is Ok ==> {
                let added = final(self)@.outputs.last();
                &&& final(self)@.value_balance == old(self)@.value_balance - value@
                &&& final(self)@.outputs == old(self)@.outputs.push(added)
                &&& final(self)@.spends == old(self)@.spends
                &&& final(self)@.anchor == old(self)@.anchor
                &&& final(self)@.zip212_enforcement == old(self)@.zip212_enforcement
                &&& added.ovk() == ovk
                &&& added.note().recipient == to
                &&& added.note().value == value
                &&& added.memo() == memo
                &&& exists|between: StdRng| #[trigger]
                    rseed_drawn(
                        *old(rng),
                        old(self)@.zip212_enforcement,
                        added.note().rseed,
                        between,
                    ) && trapdoor_drawn(between, added.rcv(), *final(rng))
            },
    {
        let output = SaplingOutputInfo::new_internal(
            rng,
            ovk,
            to,
            value,
            memo,
            self.zip212_enforcement,
        );
        let ghost before = self@;
        let ghost after = with_output(before, output);
        proof {
            use_type_invariant(&*self);
        }
        let value_balance = match self.check_output(value) {
            Ok(balance) => balance,
            Err(e) => {
                return Err(e);
            },
        };
        let mut builder = SaplingBuilder::new(self.zip212_enforcement);
        core::mem::swap(self, &mut builder);
        proof {
            law_added_output_keeps_balance(before, output);
        }
        let SaplingBuilder { anchor, spends, outputs, zip212_enforcement, .. } = builder;
        let mut outputs = outputs;
        outputs.push(output);
        *self = SaplingBuilder { anchor, value_balance, spends, outputs, zip212_enforcement };
        assert(self@ == after);
        Ok(())
    }
}

/// Adding a spend that passes the check keeps the value balance that of the spends and
/// outputs, and in range.
pub proof fn law_added_spend_keeps_balance(
    before: BuilderState,
    root: bls12_381::Scalar,
    info: SpendDescriptionInfo,
)
    requires
        before.well_formed(),
        spend_checked(before, root, info.note().value) is Ok,
    ensures
        with_spend(before, root, info).well_formed(),
{
    let values = spend_values(before.spends.push(info));
    assert(values.drop_last() =~= spend_values(before.spends));
}

/// Adding an output that passes the check keeps the value balance that of the spends and
/// outputs, and in range.
pub proof fn law_added_output_keeps_balance(before: BuilderState, info: SaplingOutputInfo)
    requires
        before.well_formed(),
        output_checked(before, info.note().value) is Ok,
    ensures
        with_output(before, info).well_formed(),
{
    let values = output_values(before.outputs.push(info));
    assert(values.drop_last() =~= output_values(before.outputs));
}

/// `root` is what the protocol makes of the commitment of the note and the path.
pub open spec fn root_computed<N: Protocol>(
    note: Note,
    merkle_path: MerklePath,
    root: bls12_381::Scalar,
) -> bool {
    exists|cmu: ExtractedNoteCommitment|
        call_ensures(N::cmu, (&note,), cmu) && #[trigger] call_ensures(
            N::root,
            (&merkle_path, &cmu),
            root,
        )
}

} // verus!
