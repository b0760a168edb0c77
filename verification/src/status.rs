//! Machine-word status codes: success, warning, and error classes.

use vstd::prelude::*;

verus! {

/// High bit of a machine-word status code: set on errors, clear on warnings
/// and on success.
pub const STATUS_HIGH_BIT: usize = 1 << (usize::BITS - 1);

/// A status code returned by every firmware call.  The most-significant bit
/// set marks an error; a nonzero value with the high bit clear marks a
/// warning; the all-zero value marks success.
#[derive(Clone, Copy, Debug, PartialEq, Eq, Hash, Structural)]
pub struct Status {
    pub code: usize,
}

impl Status {
    /// The all-zero success status.
    pub open spec fn success_spec() -> Status {
        Status { code: 0 }
    }

    /// The all-zero success status.
    pub fn success() -> (s: Status)
        ensures
            s == Status::success_spec(),
    {
        Status { code: 0 }
    }

    /// An error status: the given code with the high bit set.
    pub open spec fn new_error_spec(value: usize) -> Status {
        Status { code: STATUS_HIGH_BIT | value }
    }

    /// A warning status: the given code with the high bit left clear.
    pub open spec fn new_warn_spec(value: usize) -> Status {
        Status { code: value }
    }

    pub open spec fn is_success_spec(self) -> bool {
        self.code == 0
    }

    /// The "buffer too small" error, which drives the two-phase query
    /// protocol: expected at the probe phase, stale at the fill phase.
    pub open spec fn buffer_too_small_spec() -> Status {
        Status::new_error_spec(5)
    }

    /// The "not found" error: the normal outcome of a resolution or
    /// enumeration that matched nothing.
    pub open spec fn not_found_spec() -> Status {
        Status::new_error_spec(14)
    }

    /// The "invalid parameter" error.
    pub open spec fn invalid_parameter_spec() -> Status {
        Status::new_error_spec(2)
    }

    /// The "bad buffer size" error.
    pub open spec fn bad_buffer_size_spec() -> Status {
        Status::new_error_spec(4)
    }

    pub open spec fn is_error_spec(self) -> bool {
        self.code >= STATUS_HIGH_BIT
    }

    pub open spec fn is_warning_spec(self) -> bool {
        0 < self.code < STATUS_HIGH_BIT
    }

    pub fn new_error(value: usize) -> (s: Status)
        ensures
            s == Status::new_error_spec(value),
    {
        Status { code: STATUS_HIGH_BIT | value }
    }

    pub fn new_warn(value: usize) -> (s: Status)
        ensures
            s == Status::new_warn_spec(value),
    {
        Status { code: value }
    }

    /// What converting this status with a given success payload yields.
    pub open spec fn to_result_spec<T>(self, ok: T) -> Result<T, Status> {
        if self.is_success_spec() {
            Ok(ok)
        } else {
            Err(self)
        }
    }

    /// Converts this status into a result: the success payload if and only if
    /// the status is the all-zero value, otherwise the status itself as the
    /// error, warnings included.
    pub fn to_result<T>(self, ok: T) -> (r: Result<T, Status>)
        ensures
            r == self.to_result_spec(ok),
    {
        if self == Status::success() {
            Ok(ok)
        } else {
            Err(self)
        }
    }
}

/// Error constructors always set the high bit; warning constructors with a
/// nonzero code below the high bit yield a warning; success is exactly zero;
/// and within each class, distinct codes never collide, nor does an error
/// ever equal a warning or success.  The high bit itself exceeds every
/// defined code on either machine word width.
pub proof fn lemma_status_code_classes(c1: usize, c2: usize)
    ensures
        STATUS_HIGH_BIT >= 0x8000_0000,
        Status::new_error_spec(c1).is_error_spec(),
        0 < c1 < STATUS_HIGH_BIT ==> Status::new_warn_spec(c1).is_warning_spec(),
        Status::success_spec().is_success_spec(),
        c1 < STATUS_HIGH_BIT && c2 < STATUS_HIGH_BIT && c1 != c2 ==> Status::new_error_spec(c1)
            != Status::new_error_spec(c2),
        c1 != c2 ==> Status::new_warn_spec(c1) != Status::new_warn_spec(c2),
        c2 < STATUS_HIGH_BIT ==> Status::new_error_spec(c1) != Status::new_warn_spec(c2),
        Status::new_error_spec(c1) != Status::success_spec(),
        0 < c1 ==> Status::new_warn_spec(c1) != Status::success_spec(),
{
    assert(STATUS_HIGH_BIT >= 0x8000_0000) by (bit_vector);
    assert(STATUS_HIGH_BIT | c1 >= STATUS_HIGH_BIT) by (bit_vector);
    assert(STATUS_HIGH_BIT | c1 != 0) by (bit_vector);
    assert(c2 < STATUS_HIGH_BIT ==> STATUS_HIGH_BIT | c1 != c2) by (bit_vector);
    assert(c1 < STATUS_HIGH_BIT && c2 < STATUS_HIGH_BIT && c1 != c2 ==> (STATUS_HIGH_BIT | c1) != (
    STATUS_HIGH_BIT | c2)) by (bit_vector);
}

/// The named status codes of the firmware specification: each returns the
/// fixed value that external consumers depend on.
impl Status {
    pub fn load_error() -> (s: Status)
        ensures
            s == Status::new_error_spec(1),
    {
        Status::new_error(1)
    }

    pub fn invalid_parameter() -> (s: Status)
        ensures
            s == Status::new_error_spec(2),
    {
        Status::new_error(2)
    }

    pub fn unsupported() -> (s: Status)
        ensures
            s == Status::new_error_spec(3),
    {
        Status::new_error(3)
    }

    pub fn bad_buffer_size() -> (s: Status)
        ensures
            s == Status::new_error_spec(4),
    {
        Status::new_error(4)
    }

    pub fn buffer_too_small() -> (s: Status)
        ensures
            s == Status::new_error_spec(5),
    {
        Status::new_error(5)
    }

    pub fn not_ready() -> (s: Status)
        ensures
            s == Status::new_error_spec(6),
    {
        Status::new_error(6)
    }

    pub fn device_error() -> (s: Status)
        ensures
            s == Status::new_error_spec(7),
    {
        Status::new_error(7)
    }

    pub fn write_protected() -> (s: Status)
        ensures
            s == Status::new_error_spec(8),
    {
        Status::new_error(8)
    }

    pub fn out_of_resources() -> (s: Status)
        ensures
            s == Status::new_error_spec(9),
    {
        Status::new_error(9)
    }

    pub fn volume_corrupted() -> (s: Status)
        ensures
            s == Status::new_error_spec(10),
    {
        Status::new_error(10)
    }

    pub fn volume_full() -> (s: Status)
        ensures
            s == Status::new_error_spec(11),
    {
        Status::new_error(11)
    }

    pub fn no_media() -> (s: Status)
        ensures
            s == Status::new_error_spec(12),
    {
        Status::new_error(12)
    }

    pub fn media_changed() -> (s: Status)
        ensures
            s == Status::new_error_spec(13),
    {
        Status::new_error(13)
    }

    pub fn not_found() -> (s: Status)
        ensures
            s == Status::new_error_spec(14),
    {
        Status::new_error(14)
    }

    pub fn access_denied() -> (s: Status)
        ensures
            s == Status::new_error_spec(15),
    {
        Status::new_error(15)
    }

    pub fn no_response() -> (s: Status)
        ensures
            s == Status::new_error_spec(16),
    {
        Status::new_error(16)
    }

    pub fn no_mapping() -> (s: Status)
        ensures
            s == Status::new_error_spec(17),
    {
        Status::new_error(17)
    }

    pub fn timeout() -> (s: Status)
        ensures
            s == Status::new_error_spec(18),
    {
        Status::new_error(18)
    }

    pub fn not_started() -> (s: Status)
        ensures
            s == Status::new_error_spec(19),
    {
        Status::new_error(19)
    }

    pub fn already_started() -> (s: Status)
        ensures
            s == Status::new_error_spec(20),
    {
        Status::new_error(20)
    }

    pub fn aborted() -> (s: Status)
        ensures
            s == Status::new_error_spec(21),
    {
        Status::new_error(21)
    }

    pub fn icmp_error() -> (s: Status)
        ensures
            s == Status::new_error_spec(22),
    {
        Status::new_error(22)
    }

    pub fn tftp_error() -> (s: Status)
        ensures
            s == Status::new_error_spec(23),
    {
        Status::new_error(23)
    }

    pub fn protocol_error() -> (s: Status)
        ensures
            s == Status::new_error_spec(24),
    {
        Status::new_error(24)
    }

    pub fn incompatible_error() -> (s: Status)
        ensures
            s == Status::new_error_spec(25),
    {
        Status::new_error(25)
    }

    pub fn security_violation() -> (s: Status)
        ensures
            s == Status::new_error_spec(26),
    {
        Status::new_error(26)
    }

    pub fn crc_error() -> (s: Status)
        ensures
            s == Status::new_error_spec(27),
    {
        Status::new_error(27)
    }

    pub fn end_of_media() -> (s: Status)
        ensures
            s == Status::new_error_spec(28),
    {
        Status::new_error(28)
    }

    pub fn end_of_file() -> (s: Status)
        ensures
            s == Status::new_error_spec(31),
    {
        Status::new_error(31)
    }

    pub fn invalid_language() -> (s: Status)
        ensures
            s == Status::new_error_spec(32),
    {
        Status::new_error(32)
    }

    pub fn compromised_data() -> (s: Status)
        ensures
            s == Status::new_error_spec(33),
    {
        Status::new_error(33)
    }

    pub fn ip_address_conflict() -> (s: Status)
        ensures
            s == Status::new_error_spec(34),
    {
        Status::new_error(34)
    }

    pub fn http_error() -> (s: Status)
        ensures
            s == Status::new_error_spec(35),
    {
        Status::new_error(35)
    }

    pub fn warn_unknown_glyph() -> (s: Status)
        ensures
            s == Status::new_warn_spec(1),
    {
        Status::new_warn(1)
    }

    pub fn warn_delete_failure() -> (s: Status)
        ensures
            s == Status::new_warn_spec(2),
    {
        Status::new_warn(2)
    }

    pub fn warn_write_failure() -> (s: Status)
        ensures
            s == Status::new_warn_spec(3),
    {
        Status::new_warn(3)
    }

    pub fn warn_buffer_too_small() -> (s: Status)
        ensures
            s == Status::new_warn_spec(4),
    {
        Status::new_warn(4)
    }

    pub fn warn_stale_data() -> (s: Status)
        ensures
            s == Status::new_warn_spec(5),
    {
        Status::new_warn(5)
    }

    pub fn warn_file_system() -> (s: Status)
        ensures
            s == Status::new_warn_spec(6),
    {
        Status::new_warn(6)
    }

    pub fn warn_reset_requested() -> (s: Status)
        ensures
            s == Status::new_warn_spec(7),
    {
        Status::new_warn(7)
    }

}

} // verus!
