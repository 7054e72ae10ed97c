//! A file of a Python package's distribution metadata as the configuration
//! layer sees it: a value whose readable fields are named.
use vstd::prelude::*;
use crate::text::text_eq;

verus! {

/// A distribution metadata file of a Python package.
pub struct PythonPackageDistributionResourceValue {
    /// The package the file belongs to.
    pub package: String,
    /// The file's name within the distribution.
    pub name: String,
}

/// The fields a distribution resource exposes by name.
#[derive(Debug, PartialEq, Eq, Structural)]
pub enum ResourceField {
    IsStdlib,
    Package,
    Name,
}

/// The value of a named field.
#[derive(Debug, PartialEq, Eq)]
pub enum FieldValue {
    Bool(bool),
    Text(String),
}

/// The field called `attr`, if there is one.
pub open spec fn field_of(attr: Seq<char>) -> Option<ResourceField> {
    if attr == "is_stdlib"@ {
        Some(ResourceField::IsStdlib)
    } else if attr == "package"@ {
        Some(ResourceField::Package)
    } else if attr == "name"@ {
        Some(ResourceField::Name)
    } else {
        None
    }
}

/// The type name shown in the text form of a resource.
pub open spec fn resource_type_label() -> Seq<char> {
    "PythonPackageDistributionResource"@
}

/// The field called `attr`, if there is one.
pub fn resource_field(attr: &str) -> (r: Option<ResourceField>)
    ensures
        r == field_of(attr@),
{
    if text_eq(attr, "is_stdlib") {
        Some(ResourceField::IsStdlib)
    } else if text_eq(attr, "package") {
        Some(ResourceField::Package)
    } else if text_eq(attr, "name") {
        Some(ResourceField::Name)
    } else {
        None
    }
}

impl PythonPackageDistributionResourceValue {
    pub fn new(package: String, name: String) -> (r: Self)
        ensures
            r.package@ == package@,
            r.name@ == name@,
    {
        PythonPackageDistributionResourceValue { package, name }
    }

    /// `PythonPackageDistributionResource<package=P, name=N>`.
    pub fn to_str(&self) -> (r: String)
        ensures
            r@ == resource_type_label() + "<package="@ + self.package@ + ", name="@ + self.name@ + ">"@,
    {
        let mut r = String::from_str("PythonPackageDistributionResource");
        r.append("<package=");
        r.append(self.package.as_str());
        r.append(", name=");
        r.append(self.name.as_str());
        r.append(">");
        r
    }

    /// Same as `to_str`.
    pub fn to_repr(&self) -> (r: String)
        ensures
            r@ == resource_type_label() + "<package="@ + self.package@ + ", name="@ + self.name@ + ">"@,
    {
        self.to_str()
    }

    /// A resource is always true.
    pub fn to_bool(&self) -> (r: bool)
        ensures
            r,
    {
        true
    }

    /// Whether `attr` names a field of the resource or one of
    /// `context_attrs`, the attributes of its collection policy.
    pub fn has_attr(&self, attr: &str, context_attrs: &[String]) -> (r: bool)
        ensures
            r == (field_of(attr@).is_some() || exists|i: int|
                0 <= i < context_attrs@.len() && #[trigger] context_attrs@[i]@ == attr@),
    {
        if resource_field(attr).is_some() {
            return true;
        }
        let mut i: usize = 0;
        while i < context_attrs.len()
            invariant
                i <= context_attrs@.len(),
                forall|k: int| 0 <= k < i ==> #[trigger] context_attrs@[k]@ != attr@,
            decreases context_attrs@.len() - i,
        {
            if text_eq(context_attrs[i].as_str(), attr) {
                return true;
            }
            i = i + 1;
        }
        false
    }

    /// The value of the field called `attr`; none where `attr` names no field
    /// of the resource itself.
    pub fn get_attr(&self, attr: &str) -> (r: Option<FieldValue>)
        ensures
            field_of(attr@) == Some(ResourceField::IsStdlib) ==> r == Some(FieldValue::Bool(false)),
            field_of(attr@) == Some(ResourceField::Package) ==> (r matches Some(
                FieldValue::Text(t),
            ) && t@ == self.package@),
            field_of(attr@) == Some(ResourceField::Name) ==> (r matches Some(FieldValue::Text(t))
                && t@ == self.name@),
            field_of(attr@).is_none() ==> r.is_none(),
    {
        match resource_field(attr) {
            Some(ResourceField::IsStdlib) => Some(FieldValue::Bool(false)),
            Some(ResourceField::Package) => Some(FieldValue::Text(self.package.clone())),
            Some(ResourceField::Name) => Some(FieldValue::Text(self.name.clone())),
            None => None,
        }
    }
}

} // verus!
