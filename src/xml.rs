//! What description documents need decided before an XML writer writes them:
//! the element left open, and the namespace attribute of an element.
use vstd::prelude::*;
use crate::syntax::XML_ATTR_NAMESPACE;
use crate::text::join3;

verus! {

/// An element whose start tag has been written and whose end tag has not.
#[derive(Clone, Copy, Debug)]
pub struct Element {
    name: &'static str,
}

impl Element {
    /// The element named `name`, just opened.
    pub fn new(name: &'static str) -> (r: Element)
        ensures
            r.name()@ == name@,
    {
        Element { name }
    }

    /// The name its end tag must carry.
    pub closed spec fn spec_name(&self) -> &'static str {
        self.name
    }

    /// The name its end tag must carry.
    #[verifier::when_used_as_spec(spec_name)]
    pub fn name(&self) -> (r: &'static str)
        ensures
            r == self.spec_name(),
    {
        self.name
    }
}

/// The name of the attribute that declares a namespace: `xmlns`, or
/// `xmlns:{prefix}` for a prefixed one.
pub open spec fn namespace_attribute_name(prefix: Option<Seq<char>>) -> Seq<char> {
    match prefix {
        Some(p) => XML_ATTR_NAMESPACE@ + ":"@ + p,
        None => XML_ATTR_NAMESPACE@,
    }
}

/// The name of the attribute that declares a namespace, with an optional
/// prefix.
pub fn namespace_attribute(prefix: Option<&str>) -> (r: String)
    ensures
        r@ == namespace_attribute_name(
            match prefix {
                Some(p) => Some(p@),
                None => None,
            },
        ),
{
    match prefix {
        Some(p) => join3(XML_ATTR_NAMESPACE, ":", p),
        None => String::from_str(XML_ATTR_NAMESPACE),
    }
}

} // verus!
