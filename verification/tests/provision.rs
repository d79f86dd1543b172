use libra::device::{Device, Model};
use libra::error::{AppError, MenuError};
use libra::provision::{decimal_string, provisioned_device};

fn invalid(text: &str) -> Result<Device, AppError> {
    Err(AppError::Menu(MenuError::InvalidResponse(text.to_string())))
}

#[test]
fn provision_reads_model_and_number() {
    assert_eq!(
        provisioned_device(Model::Bench, "Bench-42"),
        Ok(Device { model: Model::Bench, number: 42 })
    );
}

#[test]
fn provision_rejects_a_missing_separator() {
    assert_eq!(provisioned_device(Model::Bench, "Bench42"), invalid("Bench42"));
}

#[test]
fn provision_rejects_a_number_that_is_none() {
    assert_eq!(provisioned_device(Model::Bench, "Bench-abc"), invalid("Bench-abc"));
}

#[test]
fn provision_rejects_another_model() {
    assert_eq!(provisioned_device(Model::Bench, "Floor-42"), invalid("Floor-42"));
    assert_eq!(
        provisioned_device(Model::Floor, "Floor-42"),
        Ok(Device { model: Model::Floor, number: 42 })
    );
    assert_eq!(
        provisioned_device(Model::Pallet, "Pallet-0"),
        Ok(Device { model: Model::Pallet, number: 0 })
    );
}

#[test]
fn provision_rejects_short_and_empty_answers() {
    assert_eq!(provisioned_device(Model::Bench, ""), invalid(""));
    assert_eq!(provisioned_device(Model::Bench, "Ben"), invalid("Ben"));
    assert_eq!(provisioned_device(Model::Bench, "Bench"), invalid("Bench"));
    assert_eq!(provisioned_device(Model::Bench, "Bench-"), invalid("Bench-"));
}

#[test]
fn provision_rejects_signs_spaces_and_trailing_text() {
    assert_eq!(provisioned_device(Model::Bench, "Bench-+42"), invalid("Bench-+42"));
    assert_eq!(provisioned_device(Model::Bench, "Bench--42"), invalid("Bench--42"));
    assert_eq!(provisioned_device(Model::Bench, "Bench- 42"), invalid("Bench- 42"));
    assert_eq!(provisioned_device(Model::Bench, "Bench-42 "), invalid("Bench-42 "));
    assert_eq!(provisioned_device(Model::Bench, "Bench-4x2"), invalid("Bench-4x2"));
    assert_eq!(provisioned_device(Model::Bench, " Bench-42"), invalid(" Bench-42"));
    assert_eq!(provisioned_device(Model::Bench, "bench-42"), invalid("bench-42"));
}

#[test]
fn provision_accepts_leading_zeros() {
    assert_eq!(
        provisioned_device(Model::Bench, "Bench-007"),
        Ok(Device { model: Model::Bench, number: 7 })
    );
}

#[test]
fn provision_holds_the_largest_number_and_rejects_the_next() {
    assert_eq!(
        provisioned_device(Model::Bench, "Bench-18446744073709551615"),
        Ok(Device { model: Model::Bench, number: u64::MAX })
    );
    assert_eq!(
        provisioned_device(Model::Bench, "Bench-18446744073709551616"),
        invalid("Bench-18446744073709551616")
    );
    assert_eq!(
        provisioned_device(Model::Bench, "Bench-99999999999999999999999"),
        invalid("Bench-99999999999999999999999")
    );
}

#[test]
fn provision_rejects_digits_of_other_scripts() {
    assert_eq!(provisioned_device(Model::Bench, "Bench-\u{0664}\u{0662}"), invalid("Bench-\u{0664}\u{0662}"));
    assert_eq!(provisioned_device(Model::Bench, "B\u{00e9}nch-42"), invalid("B\u{00e9}nch-42"));
}

#[test]
fn model_names() {
    assert_eq!(Model::Bench.name(), "Bench");
    assert_eq!(Model::Floor.name(), "Floor");
    assert_eq!(Model::Pallet.name(), "Pallet");
}

#[test]
fn decimal_strings() {
    assert_eq!(decimal_string(0), "0");
    assert_eq!(decimal_string(7), "7");
    assert_eq!(decimal_string(10), "10");
    assert_eq!(decimal_string(42), "42");
    assert_eq!(decimal_string(1234567890), "1234567890");
    assert_eq!(decimal_string(u64::MAX), "18446744073709551615");
}

#[test]
fn identifier_is_model_hyphen_number() {
    assert_eq!(Device { model: Model::Bench, number: 42 }.identifier(), "Bench-42");
    assert_eq!(Device { model: Model::Floor, number: 0 }.identifier(), "Floor-0");
    assert_eq!(
        Device { model: Model::Pallet, number: u64::MAX }.identifier(),
        "Pallet-18446744073709551615"
    );
}

#[test]
fn identifier_reads_back_as_the_device() {
    let numbers = [0, 1, 9, 10, 99, 100, 4096, u64::MAX - 1, u64::MAX];
    let models = [Model::Bench, Model::Floor, Model::Pallet];
    for model in models {
        for number in numbers {
            let device = Device { model, number };
            assert_eq!(provisioned_device(model, &device.identifier()), Ok(device));
        }
    }
}
