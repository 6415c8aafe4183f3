//! Namespaces: isolated, key-authenticated storage areas, each with its own
//! filesystem root, listing policy and name generator. The set of
//! namespaces is fixed at process start and only looked up afterwards.

use vstd::prelude::*;
use vstd::string::*;

use crate::allocation::RetryState;
use crate::config::Config;
use crate::file_listing::FileListingConfig;
use crate::paths::{candidate_file_name, path_join, spec_path_join};
use crate::random_string_generator::{
    is_alphanumeric_char, is_uuid_v4_string, StringGenerator,
};

verus! {

pub struct NamespaceDefinition {
    /// Directory of this namespace under the uploads root.
    pub file_system_path: String,
    /// Secret compared byte-for-byte against the client's credential.
    pub key: String,
    pub file_listing: FileListingConfig,
    pub file_name_generator: StringGenerator,
}

/// The namespace registry: name-to-definition pairs, immutable for the
/// process lifetime, searched front to back.
pub struct NamespaceTable {
    pub entries: Vec<(String, NamespaceDefinition)>,
}

/// First definition registered under `name`, if any.
pub open spec fn spec_table_lookup(
    entries: Seq<(String, NamespaceDefinition)>,
    name: Seq<char>,
) -> Option<NamespaceDefinition>
    decreases entries.len(),
{
    if entries.len() == 0 {
        None
    } else if entries[0].0@ == name {
        Some(entries[0].1)
    } else {
        spec_table_lookup(entries.skip(1), name)
    }
}

impl NamespaceTable {
    /// What the registry holds for `name`.
    pub open spec fn spec_lookup(&self, name: Seq<char>) -> Option<NamespaceDefinition> {
        spec_table_lookup(self.entries@, name)
    }
}

impl NamespaceDefinition {
    /// Authenticates an upload request: looks the namespace up by name and
    /// compares the supplied key against its secret. The two failure cases
    /// — unknown namespace and wrong key — are deliberately collapsed into
    /// the one opaque `None`, so a caller cannot probe which namespaces
    /// exist.
    pub fn auth<'a>(
        namespaces: &'a NamespaceTable,
        namespace: &'a String,
        key: &'a String,
    ) -> (r: Option<&'a NamespaceDefinition>)
        ensures
            match r {
                Some(ns) => namespaces.spec_lookup(namespace@) == Some(*ns) && ns.key@ == key@,
                None => namespaces.spec_lookup(namespace@) matches Some(ns) ==> ns.key@ != key@,
            },
    {
        let entries = &namespaces.entries;
        let mut i: usize = 0;
        proof {
            assert(entries@.skip(0) =~= entries@);
        }
        while i < entries.len()
            invariant
                entries == &namespaces.entries,
                i <= entries@.len(),
                spec_table_lookup(entries@, namespace@) == spec_table_lookup(
                    entries@.skip(i as int),
                    namespace@,
                ),
            decreases entries@.len() - i,
        {
            proof {
                assert(entries@.skip(i as int)[0] == entries@[i as int]);
                assert(entries@.skip(i as int).skip(1) =~= entries@.skip(i as int + 1));
            }
            if entries[i].0 == *namespace {
                proof {
                    assert(spec_table_lookup(entries@.skip(i as int), namespace@) == Some(
                        entries@[i as int].1,
                    ));
                }
                if entries[i].1.key == *key {
                    return Some(&entries[i].1);
                } else {
                    return None;
                }
            }
            i = i + 1;
        }
        proof {
            assert(entries@.skip(entries@.len() as int) =~= Seq::<
                (String, NamespaceDefinition),
            >::empty());
        }
        None
    }

    /// The namespace's storage directory under the configured uploads root.
    pub fn get_path(&self, config: &Config) -> (r: String)
        ensures
            r@ == spec_path_join(config.storage.uploads_directory@, self.file_system_path@),
    {
        let uploads = config.get_uploads_path();
        path_join(uploads.as_str(), self.file_system_path.as_str())
    }

    /// The full path one allocation attempt will try to reserve:
    /// `<namespace dir>/<candidate name>.<extension>`, the candidate name
    /// drawn at the retry state's working length for a `Random` generator
    /// and as a v4 UUID string otherwise. The caller performs the exclusive
    /// create on the returned path and, on a collision, advances the retry
    /// state and asks again.
    pub fn candidate_path(
        &self,
        config: &Config,
        state: &RetryState,
        file_extension: &str,
    ) -> (r: String)
        ensures
            self.file_name_generator is Random ==> exists|name: Seq<char>|
                {
                    &&& name.len() == state.length
                    &&& (forall|k: int|
                        0 <= k < name.len() ==> is_alphanumeric_char(#[trigger] name[k]))
                    &&& r@ == spec_path_join(
                        spec_path_join(
                            config.storage.uploads_directory@,
                            self.file_system_path@,
                        ),
                        name + seq!['.'] + file_extension@,
                    )
                },
            self.file_name_generator is Uuid ==> exists|name: Seq<char>|
                {
                    &&& is_uuid_v4_string(name)
                    &&& r@ == spec_path_join(
                        spec_path_join(
                            config.storage.uploads_directory@,
                            self.file_system_path@,
                        ),
                        name + seq!['.'] + file_extension@,
                    )
                },
    {
        let base_dir = self.get_path(config);
        let name: String = match &self.file_name_generator {
            StringGenerator::Random { length: _, max_attempts_before_grow } => {
                let working = StringGenerator::Random {
                    length: state.length,
                    max_attempts_before_grow: *max_attempts_before_grow,
                };
                working.generate()
            },
            StringGenerator::Uuid => self.file_name_generator.generate(),
        };
        let with_extension = candidate_file_name(name.as_str(), file_extension);
        let r = path_join(base_dir.as_str(), with_extension.as_str());
        proof {
            let witness = name@;
            if self.file_name_generator is Random {
                assert({
                    &&& witness.len() == state.length
                    &&& (forall|k: int|
                        0 <= k < witness.len() ==> is_alphanumeric_char(#[trigger] witness[k]))
                    &&& r@ == spec_path_join(
                        spec_path_join(
                            config.storage.uploads_directory@,
                            self.file_system_path@,
                        ),
                        witness + seq!['.'] + file_extension@,
                    )
                });
            } else {
                assert({
                    &&& is_uuid_v4_string(witness)
                    &&& r@ == spec_path_join(
                        spec_path_join(
                            config.storage.uploads_directory@,
                            self.file_system_path@,
                        ),
                        witness + seq!['.'] + file_extension@,
                    )
                });
            }
        }
        r
    }
}

impl Default for NamespaceDefinition {
    /// The stock namespace: directory `ferris`, a freshly drawn 128
    /// character secret, hidden listing, and short random file names that
    /// grow on the first collision.
    fn default() -> (r: Self)
        ensures
            r.file_system_path@ == "ferris"@,
            r.key@.len() == 128,
            forall|k: int| 0 <= k < r.key@.len() ==> is_alphanumeric_char(#[trigger] r.key@[k]),
            r.file_listing == (FileListingConfig { show: false, use_fancy_renderer: true }),
            r.file_name_generator == (StringGenerator::Random {
                length: 12usize,
                max_attempts_before_grow: 0u32,
            }),
    {
        let key_generator = StringGenerator::Random { length: 128, max_attempts_before_grow: 0 };
        NamespaceDefinition {
            file_system_path: "ferris".to_owned(),
            key: key_generator.generate(),
            file_listing: FileListingConfig::default(),
            file_name_generator: StringGenerator::Random {
                length: 12,
                max_attempts_before_grow: 0,
            },
        }
    }
}

} // verus!
