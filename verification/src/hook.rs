//! The properties that stand for `import.meta` in a bundled module.

use crate::error::BundleError;
use vstd::prelude::*;

verus! {

/// The value of one property of `import.meta`.
#[derive(Debug, Clone, PartialEq, Eq)]
pub enum MetaValue {
    /// A string literal.
    Str(String),
    /// The literal `false`.
    False,
    /// The expression `import.meta.main`, which is true only in the module
    /// that is run as the program's entry.
    ImportMetaMain,
}

/// One property of `import.meta`: its name and its value.
#[derive(Debug, Clone, PartialEq, Eq)]
pub struct MetaProp {
    pub key: String,
    pub value: MetaValue,
}

/// Whether `props` are the properties of the module `file_name`: `url`, the
/// identity of the module, then `main`, which is the expression
/// `import.meta.main` in the entry module and `false` in every other.
pub open spec fn is_import_meta_props(props: Seq<MetaProp>, file_name: Seq<char>, is_entry: bool) -> bool {
    &&& props.len() == 2
    &&& props[0].key@ == "url"@
    &&& props[0].value matches MetaValue::Str(url)
    &&& url@ == file_name
    &&& props[1].key@ == "main"@
    &&& if is_entry {
        props[1].value == MetaValue::ImportMetaMain
    } else {
        props[1].value == MetaValue::False
    }
}

/// Rewrites `import.meta` so that bundled and unbundled code see the same.
#[derive(Debug, Clone, Copy, PartialEq, Eq, Structural)]
pub struct BundleHook;

impl BundleHook {
    /// The properties put in place of `import.meta` in the module
    /// `file_name`. It never fails.
    pub fn get_import_meta_props(&self, file_name: &str, is_entry: bool) -> (out: Result<
        Vec<MetaProp>,
        BundleError,
    >)
        ensures
            out matches Ok(props) && is_import_meta_props(props@, file_name@, is_entry),
    {
        let mut props: Vec<MetaProp> = Vec::new();
        props.push(
            MetaProp {
                key: String::from_str("url"),
                value: MetaValue::Str(String::from_str(file_name)),
            },
        );
        props.push(
            MetaProp {
                key: String::from_str("main"),
                value: if is_entry {
                    MetaValue::ImportMetaMain
                } else {
                    MetaValue::False
                },
            },
        );
        Ok(props)
    }
}

} // verus!
