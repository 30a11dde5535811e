//! Function signatures: the calling convention and the parameters and
//! results that a function exchanges with its callers.

use vstd::prelude::*;

verus! {

/// A value type, by its number in the type table.
#[derive(Clone, Copy, Debug, PartialEq, Eq, Structural, Hash)]
pub struct Type(pub u8);

/// The convention by which a function receives its arguments.
#[derive(Clone, Copy, Debug, PartialEq, Eq, Structural, Hash)]
pub enum CallConv {
    /// The baseline: whatever is fastest on the target, with no stable ABI.
    Fast,
    /// The System V ABI.
    SystemV,
    /// The Windows fastcall convention.
    Fastcall,
    /// The convention of a WebAssembly host.
    Baldrdash,
    /// The convention of the stack probe routine.
    Probestack,
}

/// What a parameter or a result is for.
#[derive(Clone, Copy, Debug, PartialEq, Eq, Structural, Hash)]
pub enum ArgumentPurpose {
    /// An ordinary argument of the user's program.
    Normal,
    /// The address of the space for a returned struct.
    StructReturn,
    /// The return address.
    Link,
    /// The caller's frame pointer.
    FramePointer,
    /// A callee-saved register, passed through.
    CalleeSaved,
    /// The pointer to the context of the virtual machine.
    VMContext,
    /// The identifier of the signature expected at an indirect call.
    SignatureId,
}

/// One parameter or result of a signature.
#[derive(Clone, Copy, Debug, PartialEq, Eq, Structural, Hash)]
pub struct AbiParam {
    pub value_type: Type,
    pub purpose: ArgumentPurpose,
}

impl AbiParam {
    /// An ordinary parameter of type `value_type`.
    pub fn new(value_type: Type) -> (r: Self)
        ensures
            r == (AbiParam { value_type, purpose: ArgumentPurpose::Normal }),
    {
        AbiParam { value_type, purpose: ArgumentPurpose::Normal }
    }

    /// A parameter of type `value_type` that serves `purpose`.
    pub fn special(value_type: Type, purpose: ArgumentPurpose) -> (r: Self)
        ensures
            r == (AbiParam { value_type, purpose }),
    {
        AbiParam { value_type, purpose }
    }
}

/// What a signature says, as plain values.
pub struct SignatureView {
    pub params: Seq<AbiParam>,
    pub returns: Seq<AbiParam>,
    pub call_conv: CallConv,
}

impl SignatureView {
    /// The signature with no parameters and no results.
    pub open spec fn empty(call_conv: CallConv) -> SignatureView {
        SignatureView { params: Seq::empty(), returns: Seq::empty(), call_conv }
    }

    /// Whether no parameter from position `from` on serves `purpose`.
    pub open spec fn none_serves_from(self, purpose: ArgumentPurpose, from: int) -> bool {
        forall|j: int| from <= j < self.params.len() ==> (#[trigger] self.params[j]).purpose != purpose
    }

    /// The position of the last parameter that serves `purpose`.
    pub open spec fn special_param_index(self, purpose: ArgumentPurpose) -> Option<usize> {
        if self.none_serves_from(purpose, 0) {
            None
        } else {
            Some(
                choose|i: usize|
                    i < self.params.len() && (#[trigger] self.params[i as int]).purpose == purpose
                        && self.none_serves_from(purpose, i + 1),
            )
        }
    }
}

/// A function's signature.
pub struct Signature {
    /// The parameters, in the order in which they are passed.
    pub params: Vec<AbiParam>,
    /// The results.
    pub returns: Vec<AbiParam>,
    /// The calling convention.
    pub call_conv: CallConv,
}

impl View for Signature {
    type V = SignatureView;

    open spec fn view(&self) -> SignatureView {
        SignatureView { params: self.params@, returns: self.returns@, call_conv: self.call_conv }
    }
}

impl Signature {
    /// A signature with no parameters and no results.
    pub fn new(call_conv: CallConv) -> (r: Self)
        ensures
            r@ == SignatureView::empty(call_conv),
    {
        Signature { params: Vec::new(), returns: Vec::new(), call_conv }
    }

    /// Drops every parameter and result, and sets the calling convention.
    pub fn clear(&mut self, call_conv: CallConv)
        ensures
            final(self)@ == SignatureView::empty(call_conv),
    {
        self.params.clear();
        self.returns.clear();
        self.call_conv = call_conv;
    }

    /// The position of the last parameter that serves `purpose`, if any
    /// does. A purpose is meant to occur once; where it occurs more often,
    /// the last occurrence counts.
    pub fn special_param_index(&self, purpose: ArgumentPurpose) -> (r: Option<usize>)
        ensures
            r == self@.special_param_index(purpose),
            match r {
                Some(i) => i < self.params@.len() && self.params@[i as int].purpose == purpose
                    && self@.none_serves_from(purpose, i + 1),
                None => self@.none_serves_from(purpose, 0),
            },
    {
        let mut i: usize = self.params.len();
        while i > 0
            invariant
                i <= self.params@.len(),
                self@.none_serves_from(purpose, i as int),
            decreases i,
        {
            i = i - 1;
            if self.params[i].purpose == purpose {
                proof {
                    lemma_last_serving_is_unique(self@, purpose, i);
                }
                return Some(i);
            }
        }
        None
    }
}

impl Clone for Signature {
    fn clone(&self) -> (r: Self)
        ensures
            r@ == self@,
    {
        let r = Signature {
            params: self.params.clone(),
            returns: self.returns.clone(),
            call_conv: self.call_conv,
        };
        assert(r.params@ =~= self.params@);
        assert(r.returns@ =~= self.returns@);
        r
    }
}

/// The last parameter that serves a purpose is one parameter: whatever
/// position has the purpose and nothing after it with the same purpose is
/// the position that `special_param_index` names.
pub proof fn lemma_last_serving_is_unique(sig: SignatureView, purpose: ArgumentPurpose, i: usize)
    requires
        i < sig.params.len(),
        sig.params[i as int].purpose == purpose,
        sig.none_serves_from(purpose, i + 1),
    ensures
        sig.special_param_index(purpose) == Some(i),
{
    assert(!sig.none_serves_from(purpose, 0));
    let c = choose|c: usize|
        c < sig.params.len() && (#[trigger] sig.params[c as int]).purpose == purpose
            && sig.none_serves_from(purpose, c + 1);
    if c < i {
        assert(sig.params[i as int].purpose != purpose);
    }
    if i < c {
        assert(sig.params[c as int].purpose != purpose);
    }
}

} // verus!
