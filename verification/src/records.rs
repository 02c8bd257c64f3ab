//! The per-machine and per-reading records.

use vstd::prelude::*;

verus! {

/// The host-assigned identity of an account slot (a registered machine, a
/// stored reading, or a caller). The host resolves and authenticates these;
/// the core only compares them.
pub type AccountId = u64;

/// The longest machine ID the registry accepts, in characters.
pub const MAX_MACHINE_ID_CHARS: usize = 32;

/// The longest image URL a reading accepts, in UTF-8 bytes.
pub const MAX_IMAGE_URL_BYTES: usize = 100;

/// Per-device mutable state. Created by `register_machine`, never deleted;
/// `owner` and `machine_id` are immutable after creation, every counter is
/// monotonically non-decreasing, and `rewards_earned` only grows between
/// claims, which reset it to zero.
#[derive(Debug)]
pub struct Machine {
    /// Identity of the registrant; only this caller may start, stop, or claim.
    pub owner: AccountId,
    /// The registry-unique ID under which the device was registered.
    pub machine_id: String,
    /// Gates whether uploads are accepted.
    pub is_active: bool,
    /// Number of readings uploaded for this machine.
    pub data_count: u64,
    /// Number of those readings that carried an image.
    pub image_count: u64,
    /// Unclaimed reward balance of the owner.
    pub rewards_earned: u64,
    /// Clock reading of the latest upload.
    pub last_data_timestamp: i64,
    /// Clock reading of the latest upload that carried an image.
    pub last_image_timestamp: i64,
    /// Number of usage events recorded against this machine's readings.
    pub data_used_count: u64,
}

impl Machine {
    /// The same record with the activity flag set to `active`.
    pub open spec fn with_active(self, active: bool) -> Machine {
        Machine { is_active: active, ..self }
    }

    /// The same record with the reward balance reset to zero.
    pub open spec fn with_rewards_claimed(self) -> Machine {
        Machine { rewards_earned: 0, ..self }
    }
}

/// Whether a machine ID is within the declared bound of
/// [`MAX_MACHINE_ID_CHARS`] characters.
pub open spec fn machine_id_within_bound(machine_id: Seq<char>) -> bool {
    machine_id.len() <= MAX_MACHINE_ID_CHARS
}

/// Whether an optional image URL is within the declared bound of
/// [`MAX_IMAGE_URL_BYTES`] UTF-8 bytes.
pub open spec fn image_url_within_bound(image_url: Option<String>) -> bool {
    match image_url {
        Some(url) => vstd::utf8::encode_utf8(url@).len() <= MAX_IMAGE_URL_BYTES,
        None => true,
    }
}

/// One sensor report. Written once by `upload_data`; afterwards only
/// `used_count` ever changes, through `use_data`.
#[derive(Debug)]
pub struct IoTData {
    /// Identity of the machine record this reading came from.
    pub machine: AccountId,
    /// Clock reading at creation.
    pub timestamp: i64,
    /// Temperature measurement, carried as the bit pattern of a 64-bit
    /// floating-point value. The core never interprets it.
    pub temperature_bits: u64,
    /// Humidity measurement, carried as the bit pattern of a 64-bit
    /// floating-point value. The core never interprets it.
    pub humidity_bits: u64,
    /// Optional image URL, at most [`MAX_IMAGE_URL_BYTES`] bytes.
    pub image_url: Option<String>,
    /// How many times `use_data` has been invoked on this reading.
    pub used_count: u64,
}

} // verus!
