//! The reward policy: fixed token amounts accrued on upload and use events.

use vstd::prelude::*;

verus! {

/// Tokens accrued by the machine's owner for any successful upload.
pub const DATA_UPLOAD_REWARD: u64 = 1;

/// Additional tokens accrued when an upload carries an image.
pub const IMAGE_BONUS_REWARD: u64 = 10;

/// Tokens accrued by the machine's owner for each usage event.
pub const DATA_USE_REWARD: u64 = 2;

/// Total tokens a single upload accrues.
pub open spec fn spec_upload_reward(has_image: bool) -> u64 {
    if has_image {
        (DATA_UPLOAD_REWARD + IMAGE_BONUS_REWARD) as u64
    } else {
        DATA_UPLOAD_REWARD
    }
}

/// Total tokens a single upload accrues: the base reward, plus the image
/// bonus when an image is attached.
pub fn upload_reward(has_image: bool) -> (r: u64)
    ensures
        r == spec_upload_reward(has_image),
{
    if has_image {
        DATA_UPLOAD_REWARD + IMAGE_BONUS_REWARD
    } else {
        DATA_UPLOAD_REWARD
    }
}

} // verus!
