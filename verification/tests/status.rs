use uefi::status::Status;
use uefi::status::STATUS_HIGH_BIT;

fn named_error_codes() -> Vec<Status> {
    vec![
        Status::load_error(),
        Status::invalid_parameter(),
        Status::unsupported(),
        Status::bad_buffer_size(),
        Status::buffer_too_small(),
        Status::not_ready(),
        Status::device_error(),
        Status::write_protected(),
        Status::out_of_resources(),
        Status::volume_corrupted(),
        Status::volume_full(),
        Status::no_media(),
        Status::media_changed(),
        Status::not_found(),
        Status::access_denied(),
        Status::no_response(),
        Status::no_mapping(),
        Status::timeout(),
        Status::not_started(),
        Status::already_started(),
        Status::aborted(),
        Status::icmp_error(),
        Status::tftp_error(),
        Status::protocol_error(),
        Status::incompatible_error(),
        Status::security_violation(),
        Status::crc_error(),
        Status::end_of_media(),
        Status::end_of_file(),
        Status::invalid_language(),
        Status::compromised_data(),
        Status::ip_address_conflict(),
        Status::http_error(),
    ]
}

fn named_warning_codes() -> Vec<Status> {
    vec![
        Status::warn_unknown_glyph(),
        Status::warn_delete_failure(),
        Status::warn_write_failure(),
        Status::warn_buffer_too_small(),
        Status::warn_stale_data(),
        Status::warn_file_system(),
        Status::warn_reset_requested(),
    ]
}

#[test]
fn success_is_zero() {
    assert_eq!(Status::success().code, 0);
}

#[test]
fn high_bit_is_top_bit_of_machine_word() {
    assert_eq!(STATUS_HIGH_BIT, 1usize << (usize::BITS - 1));
}

#[test]
fn error_codes_have_high_bit_set() {
    for s in named_error_codes() {
        assert_ne!(s.code & STATUS_HIGH_BIT, 0, "{:?}", s);
    }
}

#[test]
fn warning_codes_have_high_bit_clear() {
    for s in named_warning_codes() {
        assert_eq!(s.code & STATUS_HIGH_BIT, 0, "{:?}", s);
        assert_ne!(s.code, 0, "{:?}", s);
    }
}

#[test]
fn no_two_named_codes_collide_within_a_class() {
    let errors = named_error_codes();
    for (i, a) in errors.iter().enumerate() {
        for (j, b) in errors.iter().enumerate() {
            if i != j {
                assert_ne!(a, b);
            }
        }
    }
    let warnings = named_warning_codes();
    for (i, a) in warnings.iter().enumerate() {
        for (j, b) in warnings.iter().enumerate() {
            if i != j {
                assert_ne!(a, b);
            }
        }
    }
}

#[test]
fn exact_named_error_values() {
    assert_eq!(Status::load_error().code, STATUS_HIGH_BIT | 1);
    assert_eq!(Status::invalid_parameter().code, STATUS_HIGH_BIT | 2);
    assert_eq!(Status::buffer_too_small().code, STATUS_HIGH_BIT | 5);
    assert_eq!(Status::not_found().code, STATUS_HIGH_BIT | 14);
    assert_eq!(Status::end_of_file().code, STATUS_HIGH_BIT | 31);
    assert_eq!(Status::http_error().code, STATUS_HIGH_BIT | 35);
    assert_eq!(Status::warn_unknown_glyph().code, 1);
    assert_eq!(Status::warn_reset_requested().code, 7);
}

#[test]
fn to_result_succeeds_only_on_success() {
    assert_eq!(Status::success().to_result(17u32), Ok(17u32));
    assert_eq!(Status::not_found().to_result(17u32), Err(Status::not_found()));
    assert_eq!(Status::new_error(99).to_result(()), Err(Status::new_error(99)));
}

#[test]
fn to_result_treats_every_warning_as_failure() {
    for s in named_warning_codes() {
        assert_eq!(s.to_result(5u8), Err(s));
    }
}

#[test]
fn constructors_match_raw_values() {
    assert_eq!(Status::new_error(5), Status::buffer_too_small());
    assert_eq!(Status::new_warn(5), Status::warn_stale_data());
    assert_ne!(Status::new_error(5), Status::new_warn(5));
}
