use vstd::prelude::*;
use crate::error::{status_result, FidoError, FIDO_OK};

verus! {

/// One signed statement of a populated assertion.
pub struct Statement {
    pub auth_data: Vec<u8>,
    /// The client-data hash; the same for every statement of one assertion.
    pub client_data_hash: Vec<u8>,
    pub hmac_secret: Option<Vec<u8>>,
    pub signature: Vec<u8>,
    pub user_id: Option<Vec<u8>>,
    pub user_name: Option<Vec<u8>>,
    pub user_display_name: Option<Vec<u8>>,
    pub user_image_uri: Option<Vec<u8>>,
}

/// The statements a device returned for an assertion request, in the order the
/// device reported them.
pub struct Assertion {
    statements: Vec<Statement>,
}

/// The outcome of each statement, from the verification status of each.
pub open spec fn verification_outcomes(codes: Seq<i32>) -> Seq<Result<(), FidoError>> {
    Seq::new(codes.len(), |i: int| status_result(codes[i]))
}

/// Whether at least one statement verified.
pub open spec fn any_verified(codes: Seq<i32>) -> bool {
    exists|i: int| 0 <= i < codes.len() && codes[i] == FIDO_OK
}

impl Assertion {
    /// The statements, in specifications.
    pub closed spec fn spec_statements(self) -> Seq<Statement> {
        self.statements@
    }

    /// A populated assertion holding `statements`, in this order.
    pub fn new(statements: Vec<Statement>) -> (r: Self)
        ensures
            r.spec_statements() == statements@,
    {
        Assertion { statements }
    }

    /// The number of statements.
    pub fn len(&self) -> (r: usize)
        ensures
            r == self.spec_statements().len(),
    {
        self.statements.len()
    }

    /// Whether there is no statement.
    pub fn is_empty(&self) -> (r: bool)
        ensures
            r == (self.spec_statements().len() == 0),
    {
        self.statements.len() == 0
    }

    /// Every statement, in index order. Reading does not change the assertion,
    /// so each call yields the same statements.
    pub fn iter(&self) -> (r: &Vec<Statement>)
        ensures
            r@ == self.spec_statements(),
            r@.len() == self.spec_statements().len(),
    {
        &self.statements
    }

    /// The statement at `index`, if there is one.
    pub fn get(&self, index: usize) -> (r: Option<&Statement>)
        ensures
            index < self.spec_statements().len() ==> r == Some(&self.spec_statements()[index as int]),
            index >= self.spec_statements().len() ==> r is None,
    {
        if index < self.statements.len() {
            Some(&self.statements[index])
        } else {
            None
        }
    }

    /// Each statement paired with its verification outcome, where `codes[i]` is
    /// the engine's status for statement `i`. Every statement is evaluated: a
    /// failure of one does not stop the others.
    pub fn iter_verified<'a>(&'a self, codes: &Vec<i32>) -> (r: Vec<(&'a Statement, Result<(), FidoError>)>)
        requires
            codes@.len() == self.spec_statements().len(),
        ensures
            r@.len() == self.spec_statements().len(),
            forall|i: int| 0 <= i < r@.len() ==> *r@[i].0 == self.spec_statements()[i]
                && r@[i].1 == verification_outcomes(codes@)[i],
    {
        let mut r: Vec<(&'a Statement, Result<(), FidoError>)> = Vec::new();
        let mut i: usize = 0;
        while i < self.statements.len()
            invariant
                i <= self.statements@.len(),
                codes@.len() == self.statements@.len(),
                r@.len() == i,
                forall|j: int| 0 <= j < i ==> *r@[j].0 == self.statements@[j]
                    && r@[j].1 == verification_outcomes(codes@)[j],
            decreases self.statements@.len() - i,
        {
            let outcome = if codes[i] == FIDO_OK {
                Ok(())
            } else {
                Err(FidoError(codes[i]))
            };
            r.push((&self.statements[i], outcome));
            i = i + 1;
        }
        r
    }

    /// Whether at least one statement verified, where `codes[i]` is the
    /// engine's status for statement `i`. Stops at the first success.
    pub fn verify_one(&self, codes: &Vec<i32>) -> (r: bool)
        requires
            codes@.len() == self.spec_statements().len(),
        ensures
            r == any_verified(codes@),
    {
        let mut i: usize = 0;
        while i < codes.len()
            invariant
                i <= codes@.len(),
                forall|j: int| 0 <= j < i ==> codes@[j] != FIDO_OK,
            decreases codes@.len() - i,
        {
            if codes[i] == FIDO_OK {
                return true;
            }
            i = i + 1;
        }
        false
    }
}

/// At least one statement verifies exactly when one of the per-statement
/// outcomes is a success.
pub proof fn lemma_any_verified_iff_some_outcome_ok(codes: Seq<i32>)
    ensures
        any_verified(codes) <==> exists|i: int|
            0 <= i < codes.len() && (#[trigger] verification_outcomes(codes)[i]) is Ok,
{
    if any_verified(codes) {
        let i = choose|i: int| 0 <= i < codes.len() && codes[i] == FIDO_OK;
        assert(verification_outcomes(codes)[i] is Ok);
    }
}

/// A failing statement does not hide the others: the outcome of each statement
/// depends on its own status alone.
pub proof fn lemma_outcomes_independent(codes: Seq<i32>, i: int, code: i32)
    requires
        0 <= i < codes.len(),
    ensures
        forall|j: int| 0 <= j < codes.len() && j != i ==> verification_outcomes(codes.update(i, code))[j]
            == verification_outcomes(codes)[j],
        verification_outcomes(codes.update(i, code))[i] == status_result(code),
{
}

} // verus!
