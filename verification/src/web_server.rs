//! Web server settings. URLs are held as plain strings here; the process
//! edge parses them with a URL library when it binds the server.

use vstd::prelude::*;

verus! {

pub struct WebServerConfig {
    pub host: String,
    pub port: u16,
    /// The public base URL upload links are composed against.
    pub listen_url: String,
    /// Where a request for the site index is redirected.
    pub redirect_index_to: String,
}

impl Default for WebServerConfig {
    fn default() -> (r: Self)
        ensures
            r.host@ == "127.0.0.1"@,
            r.port == 3000,
            r.listen_url@ == "http://localhost:3000"@,
            r.redirect_index_to@ == "http://github.com/kokiriglade/mediaserver"@,
    {
        WebServerConfig {
            host: "127.0.0.1".to_owned(),
            port: 3000,
            listen_url: "http://localhost:3000".to_owned(),
            redirect_index_to: "http://github.com/kokiriglade/mediaserver".to_owned(),
        }
    }
}

} // verus!
