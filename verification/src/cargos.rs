//! The configuration of the routine that updates the manifest of the
//! generated crate.

use crate::cli::Cli;
use crate::yaml::{mapping_entries, mapping_insert, mapping_to_string, yaml_document};
use vstd::prelude::*;

verus! {

/// What the manifest update needs to know. The pipeline embeds it, written
/// as YAML, in the program that runs the update.
#[derive(Debug, Clone)]
pub struct CargoConfigurator {
    /// Package name of the generated crate.
    pub lib_name: String,
    /// Package name of the generating tool.
    pub this_crate_name: String,
    /// Package version of the generating tool.
    pub this_crate_ver: String,
}

/// The fields of a configuration with the given values, by name and in
/// declaration order.
pub open spec fn configurator_entries(
    lib_name: Seq<char>,
    this_crate_name: Seq<char>,
    this_crate_ver: Seq<char>,
) -> Seq<(Seq<char>, Seq<char>)> {
    seq![
        ("lib_name"@, lib_name),
        ("this_crate_name"@, this_crate_name),
        ("this_crate_ver"@, this_crate_ver),
    ]
}

impl CargoConfigurator {
    /// The fields by name, in declaration order.
    pub open spec fn entries(&self) -> Seq<(Seq<char>, Seq<char>)> {
        configurator_entries(self.lib_name@, self.this_crate_name@, self.this_crate_ver@)
    }

    /// The configuration for this run.
    pub fn new(cli: &Cli) -> (configurator: CargoConfigurator)
        ensures
            configurator.lib_name == cli.lib_name,
            configurator.this_crate_name == cli.this_crate_name,
            configurator.this_crate_ver == cli.this_crate_ver,
    {
        CargoConfigurator {
            lib_name: cli.lib_name.clone(),
            this_crate_name: cli.this_crate_name.clone(),
            this_crate_ver: cli.this_crate_ver.clone(),
        }
    }

    /// The configuration as a YAML document: one line per field, or the error
    /// of the YAML writer.
    pub fn to_yaml(&self) -> (r: Result<String, serde_yaml::Error>)
        ensures
            match r {
                Ok(text) => yaml_document(self.entries()) == Some(text@),
                Err(_) => yaml_document(self.entries()) is None,
            },
    {
        let mut mapping = serde_yaml::Mapping::new();
        mapping_insert(&mut mapping, "lib_name", self.lib_name.as_str());
        let ghost one = seq![("lib_name"@, self.lib_name@)];
        assert(mapping_entries(mapping) =~= one);
        mapping_insert(&mut mapping, "this_crate_name", self.this_crate_name.as_str());
        let ghost two = one.push(("this_crate_name"@, self.this_crate_name@));
        proof {
            reveal_strlit("lib_name");
            reveal_strlit("this_crate_name");
            reveal_strlit("this_crate_ver");
            assert("lib_name"@.len() != "this_crate_name"@.len());
            assert(mapping_entries(mapping) =~= two);
        }
        mapping_insert(&mut mapping, "this_crate_ver", self.this_crate_ver.as_str());
        proof {
            assert("lib_name"@.len() != "this_crate_ver"@.len());
            assert("this_crate_name"@.len() != "this_crate_ver"@.len());
            assert(mapping_entries(mapping) =~= self.entries());
        }
        mapping_to_string(&mapping)
    }
}

} // verus!
