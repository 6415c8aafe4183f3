//! The process configuration: web server settings, renderer settings,
//! storage settings and the namespace registry. Reading and writing the
//! configuration file is an edge concern; the defaults and the paths
//! derived from the configuration are logic, and live here.

use vstd::prelude::*;
use vstd::string::*;

use crate::fancy_rendering::FancyRendererConfig;
use crate::namespace_def::{NamespaceDefinition, NamespaceTable};
use crate::paths::{path_join, spec_path_join};
use crate::storage::StorageConfig;
use crate::web_server::WebServerConfig;

verus! {

pub struct Config {
    pub web_server: WebServerConfig,
    pub file_listing_render: FancyRendererConfig,
    pub storage: StorageConfig,
    pub namespaces: NamespaceTable,
}

impl Config {
    /// The uploads root every namespace directory lives under.
    pub fn get_uploads_path(&self) -> (r: String)
        ensures
            r@ == self.storage.uploads_directory@,
    {
        self.storage.uploads_directory.clone()
    }

    /// The staging directory for in-flight uploads, reserved under the
    /// uploads root.
    pub fn get_temp_path(&self) -> (r: String)
        ensures
            r@ == spec_path_join(self.storage.uploads_directory@, ".temp"@),
    {
        let uploads = self.get_uploads_path();
        path_join(uploads.as_str(), ".temp")
    }

    /// Every directory the server must ensure exists at startup: the
    /// uploads root, the staging directory, then each namespace directory
    /// in registry order.
    pub fn directories_to_create(&self) -> (r: Vec<String>)
        ensures
            r@.len() == 2 + self.namespaces.entries@.len(),
            r@[0]@ == self.storage.uploads_directory@,
            r@[1]@ == spec_path_join(self.storage.uploads_directory@, ".temp"@),
            forall|k: int|
                0 <= k < self.namespaces.entries@.len() ==> #[trigger] r@[k + 2]@
                    == spec_path_join(
                    self.storage.uploads_directory@,
                    self.namespaces.entries@[k].1.file_system_path@,
                ),
    {
        let mut dirs: Vec<String> = Vec::new();
        dirs.push(self.get_uploads_path());
        dirs.push(self.get_temp_path());
        let entries = &self.namespaces.entries;
        let mut i: usize = 0;
        while i < entries.len()
            invariant
                entries == &self.namespaces.entries,
                i <= entries@.len(),
                dirs@.len() == 2 + i,
                dirs@[0]@ == self.storage.uploads_directory@,
                dirs@[1]@ == spec_path_join(self.storage.uploads_directory@, ".temp"@),
                forall|k: int|
                    0 <= k < i ==> #[trigger] dirs@[k + 2]@ == spec_path_join(
                        self.storage.uploads_directory@,
                        entries@[k].1.file_system_path@,
                    ),
            decreases entries@.len() - i,
        {
            let ns_path = entries[i].1.get_path(self);
            dirs.push(ns_path);
            i = i + 1;
        }
        dirs
    }
}

impl Default for Config {
    /// The stock configuration: default web server, renderer and storage
    /// settings, and a single namespace named `ferris`.
    fn default() -> (r: Self)
        ensures
            r.web_server.host@ == "127.0.0.1"@,
            r.web_server.port == 3000,
            r.web_server.listen_url@ == "http://localhost:3000"@,
            r.storage.uploads_directory@ == "uploads"@,
            r.storage.default_namespace_fs_path@ == "ferris"@,
            r.namespaces.entries@.len() == 1,
            r.namespaces.entries@[0].0@ == "ferris"@,
            r.namespaces.entries@[0].1.file_system_path@ == "ferris"@,
    {
        let mut entries: Vec<(String, NamespaceDefinition)> = Vec::new();
        entries.push(("ferris".to_owned(), NamespaceDefinition::default()));
        Config {
            web_server: WebServerConfig::default(),
            file_listing_render: FancyRendererConfig::default(),
            storage: StorageConfig::default(),
            namespaces: NamespaceTable { entries },
        }
    }
}

} // verus!
