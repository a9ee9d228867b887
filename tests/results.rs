use future_convert::{ResultMapErrInto, ResultMapInto};

#[derive(Debug, PartialEq, Clone, Copy)]
enum LookupError {
    NotFound,
    Timeout,
}

#[derive(Debug, PartialEq)]
struct ServiceError(String);

impl From<LookupError> for ServiceError {
    fn from(e: LookupError) -> ServiceError {
        match e {
            LookupError::NotFound => ServiceError("not found".to_string()),
            LookupError::Timeout => ServiceError("timeout".to_string()),
        }
    }
}

#[derive(Debug, PartialEq)]
struct Wide(u64);

impl From<u8> for Wide {
    fn from(v: u8) -> Wide {
        Wide(v as u64 * 1000)
    }
}

#[test]
fn result_success_arm_is_widened() {
    let v: Result<u8, LookupError> = Ok(7);
    let r: Result<Wide, LookupError> = v.map_into();
    assert_eq!(r, Ok(Wide(7000)));
}

#[test]
fn result_success_conversion_keeps_failure() {
    let v: Result<u8, LookupError> = Err(LookupError::NotFound);
    let r: Result<Wide, LookupError> = v.map_into();
    assert_eq!(r, Err(LookupError::NotFound));
}

#[test]
fn result_failure_arm_is_widened() {
    let v: Result<u8, LookupError> = Err(LookupError::Timeout);
    let r: Result<u8, ServiceError> = v.map_err_into();
    assert_eq!(r, Err(ServiceError("timeout".to_string())));
}

#[test]
fn result_failure_conversion_keeps_success() {
    let v: Result<u8, LookupError> = Ok(200);
    let r: Result<u8, ServiceError> = v.map_err_into();
    assert_eq!(r, Ok(200));
}

#[test]
fn result_not_found_becomes_service_error() {
    let v: Result<(), LookupError> = Err(LookupError::NotFound);
    let r: Result<(), ServiceError> = v.map_err_into();
    assert_eq!(r, Err(ServiceError("not found".to_string())));
}
