use libfido2::error::{FidoError, FIDO_ERR_INVALID_ARGUMENT, FIDO_OK};
use libfido2::flags::AssertionOptions;
use libfido2::request::{AssertionCreationData, AssertionCreator, BuildAction, RequestBuild, RequestStep};

/// Records every setter the build asks for, and fails the one at `fail_at`.
fn drive(build: &mut RequestBuild, fail_at: Option<(usize, i32)>) -> Vec<RequestStep> {
    let mut seen = Vec::new();
    while let BuildAction::Perform(step) = build.next_action() {
        let code = match fail_at {
            Some((k, code)) if k == seen.len() => code,
            _ => FIDO_OK,
        };
        seen.push(step);
        build.record(code);
    }
    seen
}

fn data(ids: Option<Vec<Vec<u8>>>) -> AssertionCreationData {
    AssertionCreationData::with_defaults(ids, vec![7u8; 32], b"localhost".to_vec())
}

#[test]
fn with_defaults_sets_no_option() {
    let d = data(None);
    assert_eq!(d.options.bits(), 0);
    assert_eq!(d.client_data_hash, vec![7u8; 32]);
    assert_eq!(d.relying_party_id, b"localhost".to_vec());
    assert_eq!(d.allowed_count(), 0);
}

#[test]
fn no_allowed_ids_adds_no_restriction() {
    let mut build = RequestBuild::new(data(None));
    let steps = drive(&mut build, None);
    assert_eq!(
        steps,
        vec![
            RequestStep::RelyingPartyId,
            RequestStep::ClientDataHash,
            RequestStep::Options { user_presence: false, user_verification: false },
        ]
    );
    assert_eq!(build.next_action(), BuildAction::Complete);
    assert_eq!(build.outcome(), Ok(()));
}

#[test]
fn empty_allowed_list_adds_no_restriction() {
    let mut build = RequestBuild::new(data(Some(Vec::new())));
    let steps = drive(&mut build, None);
    assert_eq!(steps.len(), 3);
    assert!(!steps.iter().any(|s| matches!(s, RequestStep::AllowedCredentialId(_))));
}

#[test]
fn two_allowed_ids_forwarded_in_order() {
    let mut d = data(Some(vec![vec![1u8, 2], vec![3u8]]));
    d.options = AssertionOptions::user_presence();
    let mut build = RequestBuild::new(d);
    let steps = drive(&mut build, None);
    assert_eq!(
        steps,
        vec![
            RequestStep::RelyingPartyId,
            RequestStep::ClientDataHash,
            RequestStep::AllowedCredentialId(0),
            RequestStep::AllowedCredentialId(1),
            RequestStep::Options { user_presence: true, user_verification: false },
        ]
    );
    let ids = build.data().allowed_credential_ids.as_ref().unwrap();
    assert_eq!(ids[0], vec![1u8, 2]);
    assert_eq!(ids[1], vec![3u8]);
    let creator = AssertionCreator::new(41u32, build).unwrap();
    assert_eq!(*creator.raw(), 41);
    assert_eq!(creator.into_inner(), 41);
}

#[test]
fn failure_stops_build_at_that_step() {
    let mut build = RequestBuild::new(data(Some(vec![vec![1u8], vec![2u8]])));
    let steps = drive(&mut build, Some((1, FIDO_ERR_INVALID_ARGUMENT)));
    assert_eq!(steps, vec![RequestStep::RelyingPartyId, RequestStep::ClientDataHash]);
    assert_eq!(build.next_action(), BuildAction::Failed(FidoError(FIDO_ERR_INVALID_ARGUMENT)));
    assert_eq!(build.outcome(), Err(FidoError(FIDO_ERR_INVALID_ARGUMENT)));
    assert_eq!(
        AssertionCreator::new(5u8, build).err(),
        Some(FidoError(FIDO_ERR_INVALID_ARGUMENT))
    );
}

#[test]
fn failure_on_second_id_stops_before_options() {
    let mut build = RequestBuild::new(data(Some(vec![vec![1u8], vec![2u8]])));
    let steps = drive(&mut build, Some((3, -3)));
    assert_eq!(steps.len(), 4);
    assert_eq!(steps[3], RequestStep::AllowedCredentialId(1));
    assert_eq!(build.outcome(), Err(FidoError(-3)));
}

#[test]
fn failure_on_last_step() {
    let mut build = RequestBuild::new(data(None));
    let steps = drive(&mut build, Some((2, -1)));
    assert_eq!(steps.len(), 3);
    assert_eq!(build.next_action(), BuildAction::Failed(FidoError(-1)));
}

#[test]
fn creator_handle_can_be_filled() {
    let mut build = RequestBuild::new(data(None));
    drive(&mut build, None);
    let mut creator = AssertionCreator::new(vec![0u8], build).unwrap();
    creator.raw_mut().push(9);
    assert_eq!(creator.into_inner(), vec![0u8, 9]);
}
