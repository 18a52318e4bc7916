//! The metadata that every resource of the cluster carries.

use vstd::prelude::*;

verus! {

/// A point in time.
#[derive(Debug, Clone, Copy, PartialEq, Eq)]
pub struct Time {
    /// Milliseconds since the start of 1970, UTC.
    pub millis: i64,
    /// Nanoseconds past those milliseconds.
    pub nanos: u32,
}

/// A reference to a resource that owns this one.
#[derive(Debug, Clone)]
pub struct OwnerReference {
    pub kind: String,
    pub name: String,
}

/// The metadata of a resource.
#[derive(Debug, Clone, Default)]
pub struct ObjectMeta {
    pub name: Option<String>,
    /// The prefix of the name that the API server gives a resource without one.
    pub generate_name: Option<String>,
    pub namespace: Option<String>,
    pub creation_timestamp: Option<Time>,
    pub resource_version: Option<String>,
    pub owner_references: Option<Vec<OwnerReference>>,
}

impl ObjectMeta {
    /// The name of the resource, or the prefix that its name will have, or nothing.
    pub open spec fn named(&self) -> Seq<char> {
        match self.name {
            Some(n) => n@,
            None => match self.generate_name {
                Some(g) => g@,
                None => Seq::empty(),
            },
        }
    }

    /// The name of the resource, or the prefix that its name will have, or nothing.
    pub fn name_any(&self) -> (r: String)
        ensures
            r@ == self.named(),
    {
        match &self.name {
            Some(n) => n.clone(),
            None => match &self.generate_name {
                Some(g) => g.clone(),
                None => String::new(),
            },
        }
    }

    /// The namespace of the resource, or `default`.
    pub open spec fn in_namespace(&self) -> Seq<char> {
        match self.namespace {
            Some(n) => n@,
            None => "default"@,
        }
    }

    /// The namespace of the resource, or `default`.
    pub fn namespace_or_default(&self) -> (r: String)
        ensures
            r@ == self.in_namespace(),
    {
        match &self.namespace {
            Some(n) => n.clone(),
            None => "default".to_owned(),
        }
    }
}

/// A resource goes by its name, or by what its name is generated from, and stands in its namespace,
/// or in the default one.
pub proof fn a_resource_goes_by_its_name(m: ObjectMeta)
    ensures
        m.name matches Some(n) ==> m.named() == n@,
        m.name is None ==> (m.generate_name matches Some(g) ==> m.named() == g@),
        m.name is None && m.generate_name is None ==> m.named().len() == 0,
        m.namespace matches Some(n) ==> m.in_namespace() == n@,
        m.namespace is None ==> m.in_namespace() == seq!['d', 'e', 'f', 'a', 'u', 'l', 't'],
{
    reveal_strlit("default");
    assert("default"@ =~= seq!['d', 'e', 'f', 'a', 'u', 'l', 't']);
}

} // verus!
