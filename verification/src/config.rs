use vstd::prelude::*;

verus! {

/// Settings of one deployment: the application's credentials at the
/// authorization provider, the address the provider redirects to, and the
/// address of the database.
#[derive(Debug, PartialEq, Eq)]
pub struct Config {
    pub application_id: String,
    pub application_secret: String,
    pub redirect_uri: String,
    pub database_uri: String,
}

impl Clone for Config {
    fn clone(&self) -> (r: Self)
        ensures
            r == *self,
    {
        Config {
            application_id: self.application_id.clone(),
            application_secret: self.application_secret.clone(),
            redirect_uri: self.redirect_uri.clone(),
            database_uri: self.database_uri.clone(),
        }
    }
}

} // verus!
