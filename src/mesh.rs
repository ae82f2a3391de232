use vstd::prelude::*;

verus! {

/// A failure reported by the device transport.
#[verifier::external_type_specification]
#[verifier::external_body]
pub struct ExMeshError(meshtastic::errors::Error);

/// A task that could not be joined.
#[verifier::external_type_specification]
#[verifier::external_body]
pub struct ExJoinError(tokio::task::JoinError);

/// A channel index as the transport takes it.
#[verifier::external_type_specification]
#[verifier::external_body]
pub struct ExMeshChannel(meshtastic::types::MeshChannel);

/// Relies on `MeshChannel::new`, which accepts exactly the indices 0 to 7.
pub assume_specification[ meshtastic::types::MeshChannel::new ](channel: u32) -> (r: Result<
    meshtastic::types::MeshChannel,
    meshtastic::errors::Error,
>)
    ensures
        r is Ok <==> channel <= 7,
;

/// Relies on `meshtastic::utils::generate_rand_id`: a random number, of
/// which nothing is promised.
#[verifier::external_body]
pub(crate) fn fresh_config_id() -> u32 {
    meshtastic::utils::generate_rand_id::<u32>()
}

} // verus!
