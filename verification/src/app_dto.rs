//! Transfer shapes for facilities and enquiries, with the stored records
//! they are rendered from. Database-native fields are modelled as plain
//! strings: a record id as its hex form, timestamps as text.

use vstd::prelude::*;

verus! {

/// A stored facility record.
#[allow(non_snake_case)]
#[derive(Debug, Clone, PartialEq)]
pub struct Facilities {
    pub id: Option<String>,
    pub title: String,
    pub description: String,
    pub imageUrl: Option<String>,
    pub created_at: String,
    pub updated_at: String,
}

/// Payload of a facility-creation request.
#[derive(Debug, Clone, PartialEq)]
pub struct CreateFacilities {
    pub title: Option<String>,
    pub description: Option<String>,
    pub image_url: Option<String>,
}

/// The facility shape returned to clients.
#[allow(non_snake_case)]
#[derive(Debug, Clone, PartialEq)]
pub struct FacilitiesDTO {
    pub id: String,
    pub title: String,
    pub description: String,
    pub imageUrl: Option<String>,
    pub created_at: String,
    pub updated_at: String,
}

#[allow(non_snake_case)]
impl FacilitiesDTO {
    /// Renders a stored facility record for a client.
    pub fn init(facilities: Facilities) -> (r: FacilitiesDTO)
        requires
            facilities.id is Some,
        ensures
            r.id@ == facilities.id->0@,
            r.title == facilities.title,
            r.description == facilities.description,
            r.imageUrl == facilities.imageUrl,
            r.created_at == facilities.created_at,
            r.updated_at == facilities.updated_at,
    {
        let id = match facilities.id {
            Some(s) => s,
            None => "".to_owned(),
        };
        FacilitiesDTO {
            id,
            title: facilities.title,
            description: facilities.description,
            imageUrl: facilities.imageUrl,
            created_at: facilities.created_at,
            updated_at: facilities.updated_at,
        }
    }
}

/// A stored enquiry record.
#[derive(Debug, Clone, PartialEq)]
pub struct Enquiries {
    pub id: Option<String>,
    pub name: String,
    pub email: String,
    pub contact: String,
    pub subject: String,
    pub message: String,
    pub created_at: String,
    pub updated_at: String,
}

/// Payload of an enquiry-creation request.
#[derive(Debug, Clone, PartialEq)]
pub struct CreateEnquiryDTO {
    pub name: String,
    pub email: String,
    pub contact: String,
    pub subject: String,
    pub message: String,
}

/// The enquiry shape returned to clients.
#[derive(Debug, Clone, PartialEq)]
pub struct EnquiriesDTO {
    pub id: String,
    pub name: String,
    pub email: String,
    pub contact: String,
    pub subject: String,
    pub message: String,
    pub created_at: String,
    pub updated_at: String,
}

impl EnquiriesDTO {
    /// Renders a stored enquiry record for a client.
    pub fn init(enquire: Enquiries) -> (r: EnquiriesDTO)
        requires
            enquire.id is Some,
        ensures
            r.id@ == enquire.id->0@,
            r.name == enquire.name,
            r.email == enquire.email,
            r.contact == enquire.contact,
            r.subject == enquire.subject,
            r.message == enquire.message,
            r.created_at == enquire.created_at,
            r.updated_at == enquire.updated_at,
    {
        let id = match enquire.id {
            Some(s) => s,
            None => "".to_owned(),
        };
        EnquiriesDTO {
            id,
            name: enquire.name,
            email: enquire.email,
            contact: enquire.contact,
            subject: enquire.subject,
            message: enquire.message,
            created_at: enquire.created_at,
            updated_at: enquire.updated_at,
        }
    }
}

} // verus!
