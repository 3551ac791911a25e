use vstd::prelude::*;

verus! {

/// Settings of the service; each is absent when not configured.
#[derive(Clone, Debug)]
pub struct Config {
    pub viber_api_key: Option<String>,
    pub admin_id: Option<String>,
    pub domain_root_url: Option<String>,
    pub dark_sky_api_key: Option<String>,
    pub hosting_root_url: Option<String>,
    pub database_url: Option<String>,
    pub google_client_id: Option<String>,
    pub google_client_secret: Option<String>,
    pub google_maps_api_key: Option<String>,
}

/// A client of the forecast service, holding its key.
pub struct DarkSky {
    api_key: String,
}

impl DarkSky {
    pub fn new(api_key: String) -> (r: DarkSky)
        ensures
            r.api_key() == api_key,
    {
        DarkSky { api_key }
    }

    pub closed spec fn api_key(&self) -> String {
        self.api_key
    }

    /// The key of the forecast service.
    pub fn key(&self) -> (r: &String)
        ensures
            *r == self.api_key(),
    {
        &self.api_key
    }
}

} // verus!
