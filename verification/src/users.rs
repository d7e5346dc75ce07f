//! User records, their transfer shapes, and the login flow.

use vstd::prelude::*;

verus! {

/// Privilege class of a backend user.
#[derive(Debug, Clone, Copy, PartialEq, Eq, Structural)]
pub enum UserTypes {
    ADMIN,
    SUBADMIN,
    ENDUSER,
}

/// The display name of each privilege class.
pub open spec fn user_type_text(t: UserTypes) -> Seq<char> {
    match t {
        UserTypes::ADMIN => "Admin"@,
        UserTypes::SUBADMIN => "SubAdmin"@,
        UserTypes::ENDUSER => "EndUser"@,
    }
}

impl UserTypes {
    /// The display name of this privilege class.
    pub fn display_name(&self) -> (r: String)
        ensures
            r@ == user_type_text(*self),
    {
        match self {
            UserTypes::ADMIN => "Admin".to_owned(),
            UserTypes::SUBADMIN => "SubAdmin".to_owned(),
            UserTypes::ENDUSER => "EndUser".to_owned(),
        }
    }

    /// Reads a privilege class from its wire spelling; `None` for an
    /// unknown spelling.
    pub fn parse_name(value: &str) -> (r: Option<UserTypes>)
        ensures
            r == spec_parse_user_type(value@),
    {
        if crate::policy::str_equal(value, "AdminUser") || crate::policy::str_equal(
            value,
            "ADMIN",
        ) {
            Some(UserTypes::ADMIN)
        } else if crate::policy::str_equal(value, "SubAdminUser") {
            Some(UserTypes::SUBADMIN)
        } else if crate::policy::str_equal(value, "EndUser") || crate::policy::str_equal(
            value,
            "end_user",
        ) {
            Some(UserTypes::ENDUSER)
        } else {
            None
        }
    }
}

/// Which privilege class each wire spelling denotes.
pub open spec fn spec_parse_user_type(value: Seq<char>) -> Option<UserTypes> {
    if value == "AdminUser"@ || value == "ADMIN"@ {
        Some(UserTypes::ADMIN)
    } else if value == "SubAdminUser"@ {
        Some(UserTypes::SUBADMIN)
    } else if value == "EndUser"@ || value == "end_user"@ {
        Some(UserTypes::ENDUSER)
    } else {
        None
    }
}

impl Default for UserTypes {
    /// The class given to a user record that names none.
    fn default() -> (r: Self)
        ensures
            r == UserTypes::ENDUSER,
    {
        UserTypes::ENDUSER
    }
}

/// A stored user record, with database-native fields already rendered to
/// plain strings (the record id as its hex form, timestamps as text).
#[derive(Debug, Clone, PartialEq)]
pub struct Users {
    pub id: Option<String>,
    pub name: String,
    pub email: String,
    pub mobile_number: String,
    pub password: String,
    pub user_type: UserTypes,
    pub is_active: bool,
    pub created_at: Option<String>,
    pub updated_at: Option<String>,
}

/// Payload of a user-creation request.
#[derive(Debug, Clone, PartialEq)]
pub struct CreateUserRequestDTO {
    pub name: String,
    pub email: String,
    pub mobile_number: String,
    pub user_type: String,
    pub password: String,
    pub is_active: bool,
}

/// Payload of a user-update request.
#[derive(Debug, Clone, PartialEq)]
pub struct UpdateUserRequestDTO {
    pub name: String,
    pub email: String,
    pub mobile_number: String,
    pub is_active: bool,
}

/// Payload of a login request.
#[derive(Debug, Clone, PartialEq)]
pub struct LoginRequestDTO {
    pub email: String,
    pub password: String,
}

/// The user shape returned to clients and embedded in tokens.
#[derive(Debug, PartialEq)]
pub struct GetUserDTO {
    pub id: String,
    pub name: String,
    pub email: String,
    pub mobile_number: String,
    pub user_type: String,
    pub is_active: bool,
    pub access_token: Option<String>,
    pub created_at: Option<String>,
    pub updated_at: Option<String>,
}

/// Mathematical shape of a [`GetUserDTO`].
pub ghost struct GetUserDTOView {
    pub id: Seq<char>,
    pub name: Seq<char>,
    pub email: Seq<char>,
    pub mobile_number: Seq<char>,
    pub user_type: Seq<char>,
    pub is_active: bool,
    pub access_token: Option<Seq<char>>,
    pub created_at: Option<Seq<char>>,
    pub updated_at: Option<Seq<char>>,
}

/// View of an optional string as an optional character sequence.
pub open spec fn view_opt_string(o: Option<String>) -> Option<Seq<char>> {
    match o {
        Some(s) => Some(s@),
        None => None,
    }
}

impl View for GetUserDTO {
    type V = GetUserDTOView;

    open spec fn view(&self) -> GetUserDTOView {
        GetUserDTOView {
            id: self.id@,
            name: self.name@,
            email: self.email@,
            mobile_number: self.mobile_number@,
            user_type: self.user_type@,
            is_active: self.is_active,
            access_token: view_opt_string(self.access_token),
            created_at: view_opt_string(self.created_at),
            updated_at: view_opt_string(self.updated_at),
        }
    }
}

/// A record can be rendered for a client only once the database has
/// assigned it an id and both timestamps.
pub open spec fn user_renderable(user: Users) -> bool {
    &&& user.id is Some
    &&& user.created_at is Some
    &&& user.updated_at is Some
}

/// The client view of a stored record: database-only fields are rendered,
/// the password is dropped, and an empty access token is elided.
pub open spec fn spec_user_dto(user: Users, access_token: Seq<char>) -> GetUserDTOView
    recommends
        user_renderable(user),
{
    GetUserDTOView {
        id: user.id->0@,
        name: user.name@,
        email: user.email@,
        mobile_number: user.mobile_number@,
        user_type: user_type_text(user.user_type),
        is_active: user.is_active,
        access_token: if access_token.len() == 0 {
            None
        } else {
            Some(access_token)
        },
        created_at: Some(user.created_at->0@),
        updated_at: Some(user.updated_at->0@),
    }
}

impl GetUserDTO {
    /// Renders a stored record for a client; an empty access token is
    /// elided.
    pub fn init(user: Users, access_token: String) -> (r: GetUserDTO)
        requires
            user_renderable(user),
        ensures
            r@ == spec_user_dto(user, access_token@),
    {
        let token = if access_token.as_str().is_empty() {
            None
        } else {
            Some(access_token)
        };
        let id = match user.id {
            Some(s) => s,
            None => "".to_owned(),
        };
        GetUserDTO {
            id,
            name: user.name,
            email: user.email,
            mobile_number: user.mobile_number,
            user_type: user.user_type.display_name(),
            is_active: user.is_active,
            access_token: token,
            created_at: user.created_at,
            updated_at: user.updated_at,
        }
    }
}

impl Clone for GetUserDTO {
    /// A field-by-field copy, equal to the value it copies.
    fn clone(&self) -> (res: Self)
        ensures
            res == *self,
    {
        GetUserDTO {
            id: self.id.clone(),
            name: self.name.clone(),
            email: self.email.clone(),
            mobile_number: self.mobile_number.clone(),
            user_type: self.user_type.clone(),
            is_active: self.is_active,
            access_token: match &self.access_token {
                Some(s) => Some(s.clone()),
                None => None,
            },
            created_at: match &self.created_at {
                Some(s) => Some(s.clone()),
                None => None,
            },
            updated_at: match &self.updated_at {
                Some(s) => Some(s.clone()),
                None => None,
            },
        }
    }
}

/// What bcrypt concludes for a password against a stored hash: the match
/// flag, or the text of its error when the stored hash is unusable. The
/// salt and cost sit inside the hash, so the result depends on the two
/// arguments alone.
pub uninterp spec fn bcrypt_check(password: Seq<char>, hash: Seq<char>) -> Result<bool, Seq<char>>;

/// Relies on `bcrypt::verify`: it re-derives the hash of the password
/// under the cost and salt carried in `hash` and compares, a
/// deterministic function of its two arguments; the error case carries
/// the display text of its error.
#[verifier::external_body]
fn bcrypt_verify(password: &str, hash: &str) -> (r: Result<bool, String>)
    ensures
        match r {
            Ok(b) => bcrypt_check(password@, hash@) == Ok::<bool, Seq<char>>(b),
            Err(e) => bcrypt_check(password@, hash@) == Err::<bool, Seq<char>>(e@),
        },
{
    match bcrypt::verify(password, hash) {
        Ok(b) => Ok(b),
        Err(e) => Err(e.to_string()),
    }
}

/// Whether a string is a valid email address under the HTML5 grammar the
/// validator crate implements; a function of the string alone.
pub uninterp spec fn email_valid(s: Seq<char>) -> bool;

/// Relies on `validator::validate_email`, a pure check of the string
/// against the HTML5 email grammar.
#[verifier::external_body]
fn validate_email_str(s: &str) -> (r: bool)
    ensures
        r == email_valid(s@),
{
    validator::validate_email(s)
}

/// Outcome of the login flow: the HTTP status code and the envelope
/// returned with it.
#[derive(Debug, PartialEq)]
pub struct LoginResponse {
    pub status: u16,
    pub body: crate::response::ResponseBuilder<GetUserDTO>,
}

/// A login request is rejected up front when the email fails the HTML5
/// grammar or either field is empty.
pub open spec fn login_params_invalid(request: LoginRequestDTO) -> bool {
    ||| !email_valid(request.email@)
    ||| request.email@.len() == 0
    ||| request.password@.len() == 0
}

/// The login flow around the user store: the store has already been
/// asked for the record under the requested email (`user_lookup`), and
/// this function decides the response. On valid parameters, a found
/// record and a matching password it answers 200 with the client view of
/// the record carrying a fresh access token; every other case answers
/// 400 with the precise reason and issues no token.
pub fn login(
    request: &LoginRequestDTO,
    user_lookup: Result<Users, crate::errors::AppError>,
    jwt: &crate::jwt_service::JwtService,
    now: u64,
) -> (r: LoginResponse)
    requires
        now + crate::jwt_service::TOKEN_LIFETIME_SECONDS <= u64::MAX,
        user_lookup matches Ok(u) ==> user_renderable(u),
    ensures
        login_params_invalid(*request) ==> r.status == 400 && r.body.status == false && (
        r.body.error matches Some(e) && e@ == "Invalid request params"@) && r.body.data is None,
        !login_params_invalid(*request) ==> (user_lookup matches Err(err) ==> r.status == 400
            && r.body.status == false && (r.body.error matches Some(e) && e@
            == crate::errors::app_error_text(err)) && r.body.data is None),
        !login_params_invalid(*request) ==> (user_lookup matches Ok(user) ==> match bcrypt_check(
            request.password@,
            user.password@,
        ) {
            Err(msg) => r.status == 400 && r.body.status == false && (
            r.body.error matches Some(e) && e@ == msg) && r.body.data is None,
            Ok(false) => r.status == 400 && r.body.status == false && (
            r.body.error matches Some(e) && e@ == "password not matched"@)
                && r.body.data is None,
            Ok(true) => ({
                let token = crate::jwt_service::spec_token(
                    crate::jwt_service::JwtService::spec_claims_for(
                        crate::codec::SubjectView::User(
                            spec_user_dto(user, Seq::<char>::empty()),
                        ),
                        now,
                    ),
                    jwt.secret(),
                );
                &&& r.status == 200
                &&& r.body.status == true
                &&& r.body.message@ == "Data fetch successfully !"@
                &&& (r.body.data matches Some(dto) && dto@ == spec_user_dto(user, token))
            }),
        }),
{
    if !validate_email_str(request.email.as_str()) || request.email.as_str().is_empty()
        || request.password.as_str().is_empty() {
        return LoginResponse {
            status: 400,
            body: crate::response::ResponseBuilder::FailedResponse(
                "Invalid request params".to_owned(),
            ),
        };
    }
    let user = match user_lookup {
        Ok(u) => u,
        Err(e) => {
            return LoginResponse {
                status: 400,
                body: crate::response::ResponseBuilder::FailedResponse(e.message()),
            };
        },
    };
    match bcrypt_verify(request.password.as_str(), user.password.as_str()) {
        Ok(true) => {},
        Ok(false) => {
            return LoginResponse {
                status: 400,
                body: crate::response::ResponseBuilder::FailedResponse(
                    "password not matched".to_owned(),
                ),
            };
        },
        Err(e) => {
            return LoginResponse {
                status: 400,
                body: crate::response::ResponseBuilder::FailedResponse(e),
            };
        },
    }
    let mut user_dto = GetUserDTO::init(user, String::new());
    let access_token = jwt.GenerateToken(crate::codec::Subject::User(user_dto.clone()), now);
    user_dto.access_token = Some(access_token);
    LoginResponse {
        status: 200,
        body: crate::response::ResponseBuilder::SuccessResponse(
            crate::errors::Messages::DataFetchSuccess.message(),
            Some(user_dto),
        ),
    }
}

} // verus!
