use school_auth::app_dto::{Enquiries, EnquiriesDTO, Facilities, FacilitiesDTO};
use school_auth::users::{GetUserDTO, UserTypes, Users};

fn stored_user() -> Users {
    Users {
        id: Some("64f000000000000000000003".to_string()),
        name: "Noor".to_string(),
        email: "noor@example.com".to_string(),
        mobile_number: "5550111".to_string(),
        password: "hash".to_string(),
        user_type: UserTypes::SUBADMIN,
        is_active: false,
        created_at: Some("2023-01-01".to_string()),
        updated_at: Some("2023-01-02".to_string()),
    }
}

#[test]
fn user_dto_renders_record() {
    let dto = GetUserDTO::init(stored_user(), "tok".to_string());
    assert_eq!(dto.id, "64f000000000000000000003");
    assert_eq!(dto.user_type, "SubAdmin");
    assert_eq!(dto.access_token.as_deref(), Some("tok"));
    assert_eq!(dto.created_at.as_deref(), Some("2023-01-01"));
    assert!(!dto.is_active);
}

#[test]
fn user_dto_elides_empty_token() {
    let dto = GetUserDTO::init(stored_user(), String::new());
    assert!(dto.access_token.is_none());
}

#[test]
fn facilities_dto_renders_record() {
    let dto = FacilitiesDTO::init(Facilities {
        id: Some("64f000000000000000000004".to_string()),
        title: "Gym".to_string(),
        description: "Large hall".to_string(),
        imageUrl: Some("/static/gym.png".to_string()),
        created_at: "2023-02-01".to_string(),
        updated_at: "2023-02-02".to_string(),
    });
    assert_eq!(dto.id, "64f000000000000000000004");
    assert_eq!(dto.title, "Gym");
    assert_eq!(dto.imageUrl.as_deref(), Some("/static/gym.png"));
}

#[test]
fn enquiries_dto_renders_record() {
    let dto = EnquiriesDTO::init(Enquiries {
        id: Some("64f000000000000000000005".to_string()),
        name: "Sam".to_string(),
        email: "sam@example.com".to_string(),
        contact: "5550122".to_string(),
        subject: "Fees".to_string(),
        message: "What are the fees?".to_string(),
        created_at: "2023-03-01".to_string(),
        updated_at: "2023-03-01".to_string(),
    });
    assert_eq!(dto.id, "64f000000000000000000005");
    assert_eq!(dto.subject, "Fees");
    assert_eq!(dto.message, "What are the fees?");
}
