use school_auth::codec::{Subject, TokenCliams, decode_claims, encode_claims};
use school_auth::errors::{AppError, Messages};
use school_auth::helper::Helper;
use school_auth::response::{PaginationData, ResponseBuilder};
use school_auth::users::UserTypes;

#[test]
fn claims_encoding_round_trips() {
    let claims = TokenCliams {
        user: Some(Subject::Student { id: "s1".to_string(), name: "Lin".to_string() }),
        iat: 5,
        exp: 36005,
    };
    let text = encode_claims(&claims);
    let (parsed, consumed) = decode_claims(&text).expect("own encoding parses");
    assert_eq!(consumed, text.chars().count());
    assert_eq!(parsed, claims);
}

#[test]
fn claims_encoding_rejects_garbage() {
    assert!(decode_claims("").is_none());
    assert!(decode_claims(";;").is_none());
    assert!(decode_claims("12;34;x").is_none());
    assert!(decode_claims("99999999999999999999999;1;n").is_none());
}

#[test]
fn success_response_shape() {
    let r: ResponseBuilder<u32> = ResponseBuilder::SuccessResponse("done".to_string(), Some(7));
    assert!(r.status);
    assert_eq!(r.message, "done");
    assert_eq!(r.error.as_deref(), Some(""));
    assert_eq!(r.data, Some(7));
    assert!(r.pagination.is_none());
}

#[test]
fn failed_response_shape() {
    let r: ResponseBuilder<u32> = ResponseBuilder::FailedResponse("boom".to_string());
    assert!(!r.status);
    assert_eq!(r.message, "Failed to process");
    assert_eq!(r.error.as_deref(), Some("boom"));
    assert!(r.data.is_none());
    assert!(r.pagination.is_none());
}

#[test]
fn invalid_id_response_shape() {
    let r: ResponseBuilder<u32> = ResponseBuilder::InValidIdResponse();
    assert!(!r.status);
    assert_eq!(r.message, "Failed to process");
    assert_eq!(r.error.as_deref(), Some("Invalid id provided !"));
}

#[test]
fn paginated_response_shape() {
    let r: ResponseBuilder<u32> =
        ResponseBuilder::SuccessResponseWithPagination("list".to_string(), Some(1), 42);
    assert!(r.status);
    assert_eq!(r.pagination, Some(PaginationData { total: 42 }));
}

#[test]
fn error_and_message_texts() {
    assert_eq!(AppError::InvalidIdError.message(), "Invalid Id found");
    assert_eq!(AppError::DataNotFoundError.message(), "Data not found");
    assert_eq!(AppError::DatabaseError.message(), "Database Error");
    assert_eq!(AppError::AccountNotFoundError.message(), "User Account Not Found !");
    assert_eq!(AppError::CustomError("ad hoc".to_string()).message(), "ad hoc");
    assert_eq!(Messages::DataFetchSuccess.message(), "Data fetch successfully !");
    assert_eq!(Messages::DataAddedSuccess.message(), "Data Added successfully !");
    assert_eq!(Messages::DataDeleteSucess.message(), "Data Deleted successfully !");
    assert_eq!(Messages::DataUpdateFailed.message(), "Failed to update data !");
    assert_eq!(Messages::DataUpdateSuccess.message(), "Data Update successfully !");
    assert_eq!(Messages::DataFetchFailed.message(), "Failed to fetch data !");
    assert_eq!(Messages::DataDeleteFailed.message(), "failed to delete data !");
    assert_eq!(Messages::CustomMessage("note".to_string()).message(), "note");
    assert_eq!(AppError::UserNotFoundError.message(), "User not found");
    assert_eq!(AppError::DeserializationError.message(), "Error while deserialize");
}

#[test]
fn user_type_names() {
    assert_eq!(UserTypes::ADMIN.display_name(), "Admin");
    assert_eq!(UserTypes::SUBADMIN.display_name(), "SubAdmin");
    assert_eq!(UserTypes::ENDUSER.display_name(), "EndUser");
    assert_eq!(UserTypes::default(), UserTypes::ENDUSER);
    assert_eq!(UserTypes::parse_name("AdminUser"), Some(UserTypes::ADMIN));
    assert_eq!(UserTypes::parse_name("ADMIN"), Some(UserTypes::ADMIN));
    assert_eq!(UserTypes::parse_name("SubAdminUser"), Some(UserTypes::SUBADMIN));
    assert_eq!(UserTypes::parse_name("end_user"), Some(UserTypes::ENDUSER));
    assert_eq!(UserTypes::parse_name("nobody"), None);
}

#[test]
fn unique_number_store() {
    let mut helper = Helper::init();
    assert!(helper.is_unique(7));
    assert!(!helper.is_unique(7));
    assert!(helper.is_unique(8));
    let drawn = helper.generate_unique_number().expect("a fresh draw succeeds");
    assert!(!helper.is_unique(drawn));
}
