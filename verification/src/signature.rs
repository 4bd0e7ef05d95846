//! Wasm function signatures, the three recognised call patterns, and the
//! classification rules over them.

use vstd::prelude::*;

verus! {

/// The Wasm value types. References to the heap are coarsened to the two
/// classic kinds: function references and external references.
#[derive(Clone, Copy, Debug, PartialEq, Eq, Structural)]
pub enum ValueType {
    I32,
    I64,
    F32,
    F64,
    V128,
    FuncRef,
    ExternRef,
}

/// The three signature shapes a guest export may be bound by. The first
/// two are syntactically identical; discovery tells them apart by the
/// export's name.
#[derive(Clone, Copy, Debug, PartialEq, Eq, Structural)]
pub enum Pattern {
    /// Two I32 parameters, one I32 result, taken as plain integers.
    I32I32ToI32,
    /// Two I32 parameters read as a linear-memory pointer and a length.
    PtrLenToI32,
    /// No parameters, one I32 result.
    NoParamsToI32,
}

/// A function's type: parameter and result value types.
#[derive(Debug)]
pub struct FuncSignature {
    pub params: Vec<ValueType>,
    pub results: Vec<ValueType>,
}

/// One function export: its name and its signature.
#[derive(Debug)]
pub struct FuncDecl {
    pub name: Vec<u8>,
    pub signature: FuncSignature,
}

/// Two I32 parameters and one I32 result.
pub open spec fn spec_two_i32_to_i32(params: Seq<ValueType>, results: Seq<ValueType>) -> bool {
    &&& params.len() == 2
    &&& params[0] is I32
    &&& params[1] is I32
    &&& results.len() == 1
    &&& results[0] is I32
}

/// No parameters and one I32 result.
pub open spec fn spec_no_params_to_i32(params: Seq<ValueType>, results: Seq<ValueType>) -> bool {
    params.len() == 0 && results.len() == 1 && results[0] is I32
}

/// Whether a signature has the given pattern's shape.
pub open spec fn spec_matches_pattern(
    params: Seq<ValueType>,
    results: Seq<ValueType>,
    pattern: Pattern,
) -> bool {
    match pattern {
        Pattern::I32I32ToI32 => spec_two_i32_to_i32(params, results),
        Pattern::PtrLenToI32 => spec_two_i32_to_i32(params, results),
        Pattern::NoParamsToI32 => spec_no_params_to_i32(params, results),
    }
}

impl FuncSignature {
    pub fn param_count(&self) -> (r: usize)
        ensures
            r == self.params@.len(),
    {
        self.params.len()
    }

    pub fn result_count(&self) -> (r: usize)
        ensures
            r == self.results@.len(),
    {
        self.results.len()
    }

    /// Whether this signature has the given pattern's shape.
    pub fn matches_pattern(&self, pattern: Pattern) -> (r: bool)
        ensures
            r == spec_matches_pattern(self.params@, self.results@, pattern),
    {
        match pattern {
            Pattern::I32I32ToI32 => self.is_two_i32_to_i32(),
            Pattern::PtrLenToI32 => self.is_two_i32_to_i32(),
            Pattern::NoParamsToI32 => {
                self.params.len() == 0 && self.results.len() == 1 && matches!(
                    self.results[0],
                    ValueType::I32,
                )
            },
        }
    }

    fn is_two_i32_to_i32(&self) -> (r: bool)
        ensures
            r == spec_two_i32_to_i32(self.params@, self.results@),
    {
        self.params.len() == 2 && matches!(self.params[0], ValueType::I32) && matches!(
            self.params[1],
            ValueType::I32,
        ) && self.results.len() == 1 && matches!(self.results[0], ValueType::I32)
    }

    /// A field-by-field copy with an exact contract.
    pub fn duplicate(&self) -> (r: FuncSignature)
        ensures
            r.params@ == self.params@,
            r.results@ == self.results@,
    {
        let mut params: Vec<ValueType> = Vec::new();
        let mut i: usize = 0;
        while i < self.params.len()
            invariant
                0 <= i <= self.params@.len(),
                params@ == self.params@.subrange(0, i as int),
            decreases self.params@.len() - i,
        {
            params.push(self.params[i]);
            proof {
                assert(self.params@.subrange(0, i + 1) =~= self.params@.subrange(0, i as int).push(
                    self.params@[i as int],
                ));
            }
            i = i + 1;
        }
        let mut results: Vec<ValueType> = Vec::new();
        let mut j: usize = 0;
        while j < self.results.len()
            invariant
                0 <= j <= self.results@.len(),
                results@ == self.results@.subrange(0, j as int),
            decreases self.results@.len() - j,
        {
            results.push(self.results[j]);
            proof {
                assert(self.results@.subrange(0, j + 1) =~= self.results@.subrange(0, j as int)
                    .push(self.results@[j as int]));
            }
            j = j + 1;
        }
        proof {
            assert(self.params@.subrange(0, self.params@.len() as int) =~= self.params@);
            assert(self.results@.subrange(0, self.results@.len() as int) =~= self.results@);
        }
        FuncSignature { params, results }
    }
}

} // verus!
