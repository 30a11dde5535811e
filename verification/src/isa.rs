//! What a function needs from the target it is compiled for: how an
//! instruction is encoded, how many bytes an encoding takes, and what to do
//! with an instruction that has no encoding.

use vstd::prelude::*;
use crate::dfg::InstructionData;
use crate::entity::DefaultValue;
use crate::function::{Function, FunctionView};
use crate::signature::Type;

verus! {

/// An offset in bytes from the start of a function's code, or a size in
/// bytes.
pub type CodeOffset = u32;

/// How an instruction is realised in machine code: the recipe that emits it
/// and the bits that the recipe is given.
#[derive(Clone, Copy, Debug, PartialEq, Eq, Structural, Hash)]
pub struct Encoding {
    pub recipe: u16,
    pub bits: u16,
}

impl Encoding {
    /// The encoding of an instruction that has none.
    pub open spec fn illegal() -> Encoding {
        Encoding { recipe: 0xffff, bits: 0xffff }
    }

    /// Whether this is the encoding of an instruction that has one.
    pub open spec fn legal(self) -> bool {
        self != Encoding::illegal()
    }

    /// The encoding that hands `bits` to `recipe`.
    pub fn new(recipe: u16, bits: u16) -> (r: Self)
        ensures
            r == (Encoding { recipe, bits }),
    {
        Encoding { recipe, bits }
    }

    /// Whether this is the encoding of an instruction that has one.
    pub fn is_legal(&self) -> (r: bool)
        ensures
            r == self.legal(),
    {
        !(self.recipe == 0xffff && self.bits == 0xffff)
    }
}

impl DefaultValue for Encoding {
    open spec fn default_value() -> Encoding {
        Encoding::illegal()
    }

    fn make_default() -> (r: Encoding) {
        Encoding { recipe: 0xffff, bits: 0xffff }
    }
}

/// What to do with an instruction that the target cannot encode as it is.
#[derive(Clone, Copy, Debug, PartialEq, Eq, Structural, Hash)]
pub enum Legalize {
    /// Replace it by instructions on narrower values.
    Narrow,
    /// Replace it by instructions on wider values.
    Widen,
    /// Replace it by simpler instructions that compute the same.
    Expand,
}

/// What a target says of its recipes, as plain values.
pub struct EncInfoView {
    /// The size in bytes of what each recipe emits, by the recipe's number.
    pub sizes: Seq<u8>,
    /// The name of each recipe, by the recipe's number.
    pub names: Seq<Seq<char>>,
}

impl EncInfoView {
    /// The size in bytes of an instruction with the encoding `enc`: nothing
    /// for an instruction without encoding, and nothing for a recipe that
    /// the table does not know.
    pub open spec fn bytes(self, enc: Encoding) -> CodeOffset {
        if enc.legal() && enc.recipe < self.sizes.len() {
            self.sizes[enc.recipe as int] as CodeOffset
        } else {
            0
        }
    }
}

/// What a target says of its recipes.
pub struct EncInfo {
    /// The size in bytes of what each recipe emits, by the recipe's number.
    pub sizes: Vec<u8>,
    /// The name of each recipe, by the recipe's number.
    pub names: Vec<String>,
}

impl View for EncInfo {
    type V = EncInfoView;

    open spec fn view(&self) -> EncInfoView {
        EncInfoView { sizes: self.sizes@, names: self.names@.map_values(|s: String| s@) }
    }
}

impl EncInfo {
    /// The size in bytes of an instruction with the encoding `enc`.
    pub fn bytes(&self, enc: Encoding) -> (r: CodeOffset)
        ensures
            r == self@.bytes(enc),
    {
        let recipe = enc.recipe as usize;
        if enc.is_legal() && recipe < self.sizes.len() {
            self.sizes[recipe] as CodeOffset
        } else {
            0
        }
    }
}

impl Clone for EncInfo {
    fn clone(&self) -> (r: Self)
        ensures
            r@ == self@,
    {
        let sizes = self.sizes.clone();
        assert(sizes@ =~= self.sizes@);
        let mut names: Vec<String> = Vec::new();
        let mut i: usize = 0;
        while i < self.names.len()
            invariant
                i <= self.names@.len(),
                names@.len() == i,
                forall|j: int| 0 <= j < i ==> (#[trigger] names@[j])@ == self.names@[j]@,
            decreases self.names@.len() - i,
        {
            names.push(self.names[i].clone());
            i = i + 1;
        }
        let r = EncInfo { sizes, names };
        assert(r@.names =~= self@.names);
        r
    }
}

/// A target: the instruction set that a function is compiled for.
///
/// A target answers from what it is asked alone: for one function, one
/// instruction and one controlling type it gives one answer. A target that
/// is verified proves this of itself. Of a target that is not, everything
/// that this library states about encodings holds only as far as the target
/// keeps to it.
pub trait TargetIsa {
    /// The target's answer for an instruction of `func` with the contents
    /// `inst` and the controlling type `ctrl_typevar`.
    spec fn encoding_for(
        &self,
        func: FunctionView,
        inst: InstructionData,
        ctrl_typevar: Type,
    ) -> Result<Encoding, Legalize>;

    /// What the target says of its recipes.
    spec fn recipes(&self) -> EncInfoView;

    /// The encoding of an instruction of `func`, or what to do with the
    /// instruction so that it can be encoded.
    fn encode(&self, func: &Function, inst: &InstructionData, ctrl_typevar: Type) -> (r: Result<
        Encoding,
        Legalize,
    >)
        ensures
            r == self.encoding_for(func@, *inst, ctrl_typevar),
    ;

    /// The sizes and names of the target's recipes.
    fn encoding_info(&self) -> (r: EncInfo)
        ensures
            r@ == self.recipes(),
    ;
}

} // verus!
