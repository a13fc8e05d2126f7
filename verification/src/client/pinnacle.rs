//! Keeping in touch with the compositor: the ping that tells a
//! configuration process whether the compositor still answers.

use vstd::prelude::*;
use rand::RngCore;

verus! {

/// `rand::thread_rng` and `RngCore::fill_bytes` on eight bytes: eight bytes
/// from the thread's random number generator. Nothing is claimed of what
/// they are.
#[verifier::external_body]
fn random_bytes() -> (bytes: [u8; 8]) {
    let mut bytes = [0u8; 8];
    rand::thread_rng().fill_bytes(&mut bytes);
    bytes
}

/// The payload of a ping: eight bytes that the compositor is to send back.
pub fn ping_payload() -> (payload: Vec<u8>)
    ensures
        payload@.len() == 8,
{
    let bytes = random_bytes();
    let mut payload: Vec<u8> = Vec::new();
    let mut i: usize = 0;
    while i < 8
        invariant
            i <= 8,
            payload@.len() == i,
        decreases 8 - i,
    {
        payload.push(bytes[i]);
        i = i + 1;
    }
    payload
}

/// Whether two runs of bytes are the same.
fn same_bytes(a: &Vec<u8>, b: &Vec<u8>) -> (same: bool)
    ensures
        same == (a@ == b@),
{
    if a.len() != b.len() {
        return false;
    }
    let mut i: usize = 0;
    while i < a.len()
        invariant
            i <= a.len(),
            a.len() == b.len(),
            forall|k: int| 0 <= k < i ==> a@[k] == b@[k],
        decreases a.len() - i,
    {
        if a[i] != b[i] {
            return false;
        }
        i = i + 1;
    }
    assert(a@ =~= b@);
    true
}

/// What a ping came to. `sent` is the payload that was sent, and `reply` is
/// what came back: the payload of the answer, or the words of the failure
/// to get one.
///
/// The ping succeeded if the answer carries the payload that was sent. A
/// failure is passed on in its own words, and an answer with another
/// payload counts as a timeout.
pub fn ping_outcome(sent: &Vec<u8>, reply: Result<Vec<u8>, String>) -> (outcome: Result<(), String>)
    ensures
        match reply {
            Ok(payload) => if payload@ == sent@ {
                outcome is Ok
            } else {
                outcome matches Err(words) && words@ == "timed out"@
            },
            Err(failure) => outcome matches Err(words) && words == failure,
        },
{
    match reply {
        Ok(payload) => {
            if same_bytes(&payload, sent) {
                Ok(())
            } else {
                Err("timed out".to_owned())
            }
        },
        Err(failure) => Err(failure),
    }
}

} // verus!
