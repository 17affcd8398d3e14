//! Where a project's self-signed certificate material lives. Generating the
//! certificates and touching the filesystem belong to the caller; the paths
//! it must use are fixed here.

use vstd::prelude::*;

use crate::strutil::concat2;

verus! {

/// The certificate handling of a project.
#[derive(Debug, Clone, Copy)]
pub struct SslManager;

/// The directory that holds a project's certificate material.
pub open spec fn certs_dir_spec(project_dir: Seq<char>) -> Seq<char> {
    project_dir + "/certs"@
}

/// The certificate file of a project.
pub open spec fn cert_path_spec(project_dir: Seq<char>) -> Seq<char> {
    project_dir + "/certs/server.crt"@
}

/// The private-key file of a project.
pub open spec fn key_path_spec(project_dir: Seq<char>) -> Seq<char> {
    project_dir + "/certs/server.key"@
}

impl SslManager {
    /// The directory that holds a project's certificate material.
    pub fn certs_dir(project_dir: &str) -> (r: String)
        ensures
            r@ == certs_dir_spec(project_dir@),
    {
        concat2(project_dir, "/certs")
    }

    /// The certificate file and the private-key file of a project.
    pub fn cert_paths(project_dir: &str) -> (r: (String, String))
        ensures
            r.0@ == cert_path_spec(project_dir@),
            r.1@ == key_path_spec(project_dir@),
    {
        (concat2(project_dir, "/certs/server.crt"), concat2(project_dir, "/certs/server.key"))
    }
}

} // verus!
