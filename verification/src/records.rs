use vstd::prelude::*;

verus! {

/// The envelope every command hands back to its caller: either a payload or
/// an error message, with a success flag that tells the two apart.
#[derive(Debug)]
pub struct CommandResult<T> {
    pub success: bool,
    pub data: Option<T>,
    pub error: Option<String>,
}

impl<T> CommandResult<T> {
    /// Wrap a payload: the flag is set, the error slot is empty.
    pub fn success(data: T) -> (r: Self)
        ensures
            r.success == true,
            r.data == Option::Some(data),
            r.error is None,
    {
        CommandResult { success: true, data: Option::Some(data), error: Option::None }
    }

    /// Wrap an error message: the flag is cleared, the payload slot is empty.
    pub fn error(error: String) -> (r: Self)
        ensures
            r.success == false,
            r.data is None,
            r.error == Option::Some(error),
    {
        CommandResult { success: false, data: Option::None, error: Option::Some(error) }
    }
}

/// The single local user's settings row, as the caller-facing record.
#[derive(Debug, Clone)]
pub struct UserSettings {
    pub id: i32,
    pub user_id: String,
    pub firm_name: Option<String>,
    pub firm_address: Option<String>,
    pub firm_phone: Option<String>,
    pub firm_email: Option<String>,
    pub firm_website: Option<String>,
    pub firm_gstin: Option<String>,
    pub firm_establishment_date: Option<String>,
    pub invoice_default_prefix: Option<String>,
    pub invoice_next_number: Option<i32>,
    pub invoice_default_notes: Option<String>,
    pub sync_enabled: bool,
    pub sync_mode: Option<String>,
    pub openai_api_key_stored: bool,
    pub updated_at: String,
}

/// One customer record, as the caller-facing shape of a database row.
#[derive(Debug, Clone)]
pub struct Customer {
    pub id: String,
    pub name: String,
    pub email: Option<String>,
    pub phone: Option<String>,
    pub address: Option<String>,
    pub identity_type: Option<String>,
    pub identity_reference: Option<String>,
    pub identity_doc: Option<String>,
    pub referred_by: Option<String>,
    pub referral_notes: Option<String>,
    pub notes: Option<String>,
    pub created_at: String,
    pub updated_at: String,
}

} // verus!
