use vstd::prelude::*;
use crate::error::{status_result, FidoError, FIDO_OK};
use crate::flags::AssertionOptions;

verus! {

/// What a request needs before it can go to a device.
///
/// With `allowed_credential_ids` at `None` (or empty) no restriction is set and
/// the authenticator may use any resident key.
pub struct AssertionCreationData {
    pub allowed_credential_ids: Option<Vec<Vec<u8>>>,
    pub client_data_hash: Vec<u8>,
    pub relying_party_id: Vec<u8>,
    pub options: AssertionOptions,
}

/// The credential ids a request allows, in the order they were given.
pub open spec fn allowed_ids(d: AssertionCreationData) -> Seq<Seq<u8>> {
    match d.allowed_credential_ids {
        None => Seq::empty(),
        Some(v) => Seq::new(v@.len(), |i: int| v@[i]@),
    }
}

impl AssertionCreationData {
    /// Data with the given ids, hash and relying party, and no option flag.
    pub fn with_defaults(
        allowed_credential_ids: Option<Vec<Vec<u8>>>,
        client_data_hash: Vec<u8>,
        relying_party_id: Vec<u8>,
    ) -> (r: Self)
        ensures
            r.allowed_credential_ids == allowed_credential_ids,
            r.client_data_hash == client_data_hash,
            r.relying_party_id == relying_party_id,
            r.options.spec_bits() == 0,
            r.options.wf(),
            !r.options.spec_user_presence(),
            !r.options.spec_user_verification(),
    {
        AssertionCreationData {
            allowed_credential_ids,
            client_data_hash,
            relying_party_id,
            options: AssertionOptions::empty(),
        }
    }

    /// How many credential ids the request allows.
    pub fn allowed_count(&self) -> (r: usize)
        ensures
            r == allowed_ids(*self).len(),
    {
        match &self.allowed_credential_ids {
            None => 0,
            Some(v) => v.len(),
        }
    }
}

/// One setter call on the native request, in the order a request is built.
#[derive(Clone, Copy, Debug, PartialEq, Eq, Structural)]
pub enum RequestStep {
    RelyingPartyId,
    ClientDataHash,
    /// Adds the allowed credential id at this position of the list.
    AllowedCredentialId(usize),
    Options { user_presence: bool, user_verification: bool },
}

/// The number of setter calls a full request takes.
pub open spec fn plan_len(d: AssertionCreationData) -> nat {
    allowed_ids(d).len() + 3
}

/// The setter call at position `k`: relying party, hash, each id, options.
pub open spec fn plan_step(d: AssertionCreationData, k: nat) -> RequestStep {
    if k == 0 {
        RequestStep::RelyingPartyId
    } else if k == 1 {
        RequestStep::ClientDataHash
    } else if k < allowed_ids(d).len() + 2 {
        RequestStep::AllowedCredentialId((k - 2) as usize)
    } else {
        RequestStep::Options {
            user_presence: d.options.spec_user_presence(),
            user_verification: d.options.spec_user_verification(),
        }
    }
}

/// All setter calls of a request, in order.
pub open spec fn request_plan(d: AssertionCreationData) -> Seq<RequestStep> {
    Seq::new(plan_len(d), |k: int| plan_step(d, k as nat))
}

/// What the engine's own accessors show of a request.
#[verifier::ext_equal]
pub struct RequestModel {
    pub relying_party_id: Option<Seq<u8>>,
    pub client_data_hash: Option<Seq<u8>>,
    pub allowed: Seq<Seq<u8>>,
    pub options: Option<(bool, bool)>,
}

/// A request on which no setter has been called.
pub open spec fn blank_request() -> RequestModel {
    RequestModel { relying_party_id: None, client_data_hash: None, allowed: Seq::empty(), options: None }
}

/// The request that `d` describes.
pub open spec fn requested(d: AssertionCreationData) -> RequestModel {
    RequestModel {
        relying_party_id: Some(d.relying_party_id@),
        client_data_hash: Some(d.client_data_hash@),
        allowed: allowed_ids(d),
        options: Some((d.options.spec_user_presence(), d.options.spec_user_verification())),
    }
}

/// The engine's request after one successful setter call with values from `d`.
pub open spec fn apply_step(m: RequestModel, d: AssertionCreationData, s: RequestStep) -> RequestModel {
    match s {
        RequestStep::RelyingPartyId => RequestModel { relying_party_id: Some(d.relying_party_id@), ..m },
        RequestStep::ClientDataHash => RequestModel { client_data_hash: Some(d.client_data_hash@), ..m },
        RequestStep::AllowedCredentialId(i) => RequestModel { allowed: m.allowed.push(allowed_ids(d)[i as int]), ..m },
        RequestStep::Options { user_presence, user_verification } => RequestModel {
            options: Some((user_presence, user_verification)),
            ..m
        },
    }
}

/// The engine's request after the given setter calls, all successful.
pub open spec fn apply_steps(d: AssertionCreationData, steps: Seq<RequestStep>) -> RequestModel
    decreases steps.len(),
{
    if steps.len() == 0 {
        blank_request()
    } else {
        apply_step(apply_steps(d, steps.drop_last()), d, steps.last())
    }
}

/// What the driver of a request does next.
#[derive(Clone, Copy, Debug, PartialEq, Eq, Structural)]
pub enum BuildAction {
    /// Call this setter on the native request and report its status.
    Perform(RequestStep),
    /// Every setter succeeded.
    Complete,
    /// A setter failed; nothing more is called.
    Failed(FidoError),
}

/// The progress of building a request: the setters of `request_plan` are
/// called in order, and the first failure ends the build.
pub struct RequestBuild {
    data: AssertionCreationData,
    done: usize,
    failure: Option<FidoError>,
}

impl RequestBuild {
    /// The data the request is built from.
    pub closed spec fn spec_data(self) -> AssertionCreationData {
        self.data
    }

    /// How many setters have succeeded.
    pub closed spec fn spec_done(self) -> nat {
        self.done as nat
    }

    /// The error of the setter that failed, if one did.
    pub closed spec fn spec_failure(self) -> Option<FidoError> {
        self.failure
    }

    pub closed spec fn wf(self) -> bool {
        self.done <= plan_len(self.data) <= usize::MAX
    }

    /// The next action, as a function of the state.
    pub open spec fn spec_next(self) -> BuildAction {
        match self.spec_failure() {
            Some(e) => BuildAction::Failed(e),
            None => if self.spec_done() == plan_len(self.spec_data()) {
                BuildAction::Complete
            } else {
                BuildAction::Perform(plan_step(self.spec_data(), self.spec_done()))
            },
        }
    }

    /// The engine's request as the successful setters so far have left it.
    pub open spec fn spec_engine(self) -> RequestModel {
        apply_steps(self.spec_data(), request_plan(self.spec_data()).take(self.spec_done() as int))
    }

    /// Starts a build; no setter has been called.
    pub fn new(data: AssertionCreationData) -> (r: Self)
        requires
            plan_len(data) <= usize::MAX,
        ensures
            r.wf(),
            r.spec_data() == data,
            r.spec_done() == 0,
            r.spec_failure() is None,
    {
        RequestBuild { data, done: 0, failure: None }
    }

    /// The data the request is built from, for the values of a setter call.
    pub fn data(&self) -> (r: &AssertionCreationData)
        ensures
            *r == self.spec_data(),
    {
        &self.data
    }

    /// What to do next.
    pub fn next_action(&self) -> (r: BuildAction)
        requires
            self.wf(),
        ensures
            r == self.spec_next(),
    {
        match self.failure {
            Some(e) => BuildAction::Failed(e),
            None => {
                let n = self.data.allowed_count();
                if self.done < 2 || n <= self.done - 2 {
                    if self.done == 0 {
                        BuildAction::Perform(RequestStep::RelyingPartyId)
                    } else if self.done == 1 {
                        BuildAction::Perform(RequestStep::ClientDataHash)
                    } else if self.done - 2 == n {
                        BuildAction::Perform(RequestStep::Options {
                            user_presence: self.data.options.requires_user_presence(),
                            user_verification: self.data.options.requires_user_verification(),
                        })
                    } else {
                        BuildAction::Complete
                    }
                } else {
                    BuildAction::Perform(RequestStep::AllowedCredentialId(self.done - 2))
                }
            },
        }
    }

    /// Reports the status of the setter that `next_action` asked for.
    pub fn record(&mut self, code: i32)
        requires
            old(self).wf(),
            old(self).spec_next() is Perform,
        ensures
            final(self).wf(),
            final(self).spec_data() == old(self).spec_data(),
            code == FIDO_OK ==> final(self).spec_done() == old(self).spec_done() + 1
                && final(self).spec_failure() is None,
            code != FIDO_OK ==> final(self).spec_done() == old(self).spec_done()
                && final(self).spec_failure() == Some(FidoError(code)),
            (final(self).spec_done(), final(self).spec_failure()) == after_status(
                old(self).spec_done(),
                old(self).spec_failure(),
                plan_len(old(self).spec_data()),
                code,
            ),
    {
        if code == FIDO_OK {
            self.done = self.done + 1;
        } else {
            self.failure = Some(FidoError(code));
        }
    }

    /// The outcome of a build that has ended.
    pub fn outcome(&self) -> (r: Result<(), FidoError>)
        requires
            !(self.spec_next() is Perform),
        ensures
            r is Ok <==> self.spec_next() is Complete,
            r matches Err(e) ==> self.spec_next() == BuildAction::Failed(e),
    {
        match self.failure {
            Some(e) => Err(e),
            None => Ok(()),
        }
    }
}

/// The progress `(setters succeeded, failure)` of a build of `len` setters
/// after one more status. Once the build has ended, a status changes nothing.
pub open spec fn after_status(done: nat, failure: Option<FidoError>, len: nat, code: i32) -> (nat, Option<FidoError>) {
    if failure is Some || done >= len {
        (done, failure)
    } else if code == FIDO_OK {
        (done + 1, None)
    } else {
        (done, Some(FidoError(code)))
    }
}

/// The progress of a build of `len` setters whose calls reported `codes`, in order.
pub open spec fn run_build(len: nat, codes: Seq<i32>) -> (nat, Option<FidoError>)
    decreases codes.len(),
{
    if codes.len() == 0 {
        (0, None)
    } else {
        let prev = run_build(len, codes.drop_last());
        after_status(prev.0, prev.1, len, codes.last())
    }
}

/// A build whose first `j` setters all succeed has, after them, `j` successes
/// and no failure.
proof fn lemma_successes_so_far(len: nat, codes: Seq<i32>, j: nat)
    requires
        j <= len,
        j <= codes.len(),
        forall|i: int| 0 <= i < j ==> codes[i] == FIDO_OK,
    ensures
        run_build(len, codes.take(j as int)) == (j, None::<FidoError>),
    decreases j,
{
    if j > 0 {
        lemma_successes_so_far(len, codes, (j - 1) as nat);
        assert(codes.take(j as int).drop_last() =~= codes.take(j - 1));
    }
}

/// A build stops at its first failing setter: when setters `0..k` succeed and
/// setter `k` fails, exactly `k` setters count as done, the failure is that of
/// setter `k`, and no later status changes anything.
pub proof fn lemma_build_stops_at_first_failure(len: nat, codes: Seq<i32>, k: nat)
    requires
        k < len,
        k < codes.len(),
        forall|i: int| 0 <= i < k ==> codes[i] == FIDO_OK,
        codes[k as int] != FIDO_OK,
    ensures
        run_build(len, codes) == (k, Some(FidoError(codes[k as int]))),
    decreases codes.len(),
{
    if codes.len() == k + 1 {
        lemma_successes_so_far(len, codes, k);
        assert(codes.drop_last() =~= codes.take(k as int));
    } else {
        lemma_build_stops_at_first_failure(len, codes.drop_last(), k);
    }
}

/// A build in which every setter succeeds completes: all `len` setters are
/// done and there is no failure, whatever statuses come later.
pub proof fn lemma_build_completes(len: nat, codes: Seq<i32>)
    requires
        len <= codes.len(),
        forall|i: int| 0 <= i < len ==> codes[i] == FIDO_OK,
    ensures
        run_build(len, codes) == (len, None::<FidoError>),
    decreases codes.len(),
{
    if codes.len() == len {
        lemma_successes_so_far(len, codes, len);
        assert(codes.take(len as int) =~= codes);
    } else {
        lemma_build_completes(len, codes.drop_last());
    }
}

/// The engine's request after the first `k` setters of the plan of `d`.
pub open spec fn partial_request(d: AssertionCreationData, k: nat) -> RequestModel {
    let n = allowed_ids(d).len();
    RequestModel {
        relying_party_id: if k >= 1 { Some(d.relying_party_id@) } else { None },
        client_data_hash: if k >= 2 { Some(d.client_data_hash@) } else { None },
        allowed: if k <= 2 { Seq::empty() } else if k <= n + 2 { allowed_ids(d).take(k - 2) } else { allowed_ids(d) },
        options: if k >= n + 3 {
            Some((d.options.spec_user_presence(), d.options.spec_user_verification()))
        } else {
            None
        },
    }
}

proof fn lemma_partial_request(d: AssertionCreationData, k: nat)
    requires
        k <= plan_len(d) <= usize::MAX,
    ensures
        apply_steps(d, request_plan(d).take(k as int)) == partial_request(d, k),
    decreases k,
{
    let n = allowed_ids(d).len();
    if k > 0 {
        lemma_partial_request(d, (k - 1) as nat);
        assert(request_plan(d).take(k as int).drop_last() =~= request_plan(d).take(k - 1));
        assert(request_plan(d).take(k as int).last() == plan_step(d, (k - 1) as nat));
        if 2 < k <= n + 2 {
            assert(allowed_ids(d).take(k - 3).push(allowed_ids(d)[k - 3]) =~= allowed_ids(d).take(k - 2));
        }
        if k == 2 {
            assert(allowed_ids(d).take(0) =~= Seq::<Seq<u8>>::empty());
        }
        if k == n + 3 && n > 0 {
            assert(allowed_ids(d).take(n as int) =~= allowed_ids(d));
        }
        assert(apply_steps(d, request_plan(d).take(k as int)) =~= partial_request(d, k));
    }
}

/// Round trip of a request: after every setter of the plan of `d` has
/// succeeded, the engine holds exactly the relying party, hash, allowed ids
/// (in the order given) and options of `d`.
pub proof fn lemma_request_round_trip(d: AssertionCreationData)
    requires
        plan_len(d) <= usize::MAX,
    ensures
        apply_steps(d, request_plan(d)) == requested(d),
{
    lemma_partial_request(d, plan_len(d));
    assert(request_plan(d).take(plan_len(d) as int) =~= request_plan(d));
    let n = allowed_ids(d).len();
    if n == 0 {
        assert(allowed_ids(d) =~= Seq::<Seq<u8>>::empty());
    }
}

/// A build that has completed left the engine holding exactly the request
/// its data describes.
pub proof fn lemma_completed_build(b: RequestBuild)
    requires
        b.wf(),
        b.spec_next() is Complete,
    ensures
        b.spec_engine() == requested(b.spec_data()),
{
    let d = b.spec_data();
    assert(request_plan(d).take(plan_len(d) as int) =~= request_plan(d));
    lemma_request_round_trip(d);
}

/// A native request handle on which every setter has succeeded, ready to be
/// handed to a device.
pub struct AssertionCreator<H> {
    raw: H,
}

impl<H> AssertionCreator<H> {
    /// The handle inside.
    pub closed spec fn spec_raw(self) -> H {
        self.raw
    }

    /// Wraps `raw` once its build has ended: `Ok` when every setter succeeded,
    /// else the error of the setter that failed (the handle is dropped).
    pub fn new(raw: H, build: RequestBuild) -> (r: Result<Self, FidoError>)
        requires
            !(build.spec_next() is Perform),
        ensures
            r is Ok <==> build.spec_next() is Complete,
            r matches Ok(c) ==> c.spec_raw() == raw,
            r matches Err(e) ==> build.spec_next() == BuildAction::Failed(e),
    {
        match build.outcome() {
            Ok(()) => Ok(AssertionCreator { raw }),
            Err(e) => Err(e),
        }
    }

    /// The handle, to read.
    pub fn raw(&self) -> (r: &H)
        ensures
            *r == self.spec_raw(),
    {
        &self.raw
    }

    /// The handle, to hand to a device call that fills it.
    pub fn raw_mut(&mut self) -> (r: &mut H)
        ensures
            *r == old(self).spec_raw(),
            final(self).spec_raw() == *final(r),
    {
        &mut self.raw
    }

    /// The handle, once a device has filled it.
    pub fn into_inner(self) -> (r: H)
        ensures
            r == self.spec_raw(),
    {
        self.raw
    }
}

} // verus!
