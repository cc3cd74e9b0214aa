//! Writing request bodies: an element with one child for each field that
//! the caller supplied, in a fixed order, and nothing for a field left out.
//!
//! Values are written as given. Free text that may hold markup of its own
//! goes into a CDATA section.

use vstd::prelude::*;
use vstd::string::*;
use crate::api::codec::opt_str;
use crate::text::{decimal, push_decimal};

verus! {

/// The element `name` around `content`: `<name>content</name>`.
pub open spec fn element_text(name: Seq<char>, content: Seq<char>) -> Seq<char> {
    "<"@ + name + ">"@ + content + "</"@ + name + ">"@
}

/// `value` inside a CDATA section.
pub open spec fn cdata_text(value: Seq<char>) -> Seq<char> {
    "<![CDATA["@ + value + "]]>"@
}

/// What the optional field `name` adds to a body: its element where a
/// value is supplied, nothing where none is.
pub open spec fn field_text(name: Seq<char>, value: Option<Seq<char>>) -> Seq<char> {
    match value {
        Some(v) => element_text(name, v),
        None => Seq::empty(),
    }
}

/// What the optional free-text field `name` adds to a body.
pub open spec fn cdata_field_text(name: Seq<char>, value: Option<Seq<char>>) -> Seq<char> {
    match value {
        Some(v) => element_text(name, cdata_text(v)),
        None => Seq::empty(),
    }
}

/// What the optional integer field `name` adds to a body.
pub open spec fn int_field_text(name: Seq<char>, value: Option<i64>) -> Seq<char> {
    match value {
        Some(v) => element_text(name, decimal(v as int)),
        None => Seq::empty(),
    }
}

/// The value of an optional integer field as it is written.
pub open spec fn written(value: Option<i64>) -> Option<Seq<char>> {
    match value {
        Some(v) => Some(decimal(v as int)),
        None => None,
    }
}

/// The value of an optional free-text field as it is written.
pub open spec fn enclosed(value: Option<Seq<char>>) -> Option<Seq<char>> {
    match value {
        Some(v) => Some(cdata_text(v)),
        None => None,
    }
}

/// The content of a body with the fields `fields`, each a name and an
/// optional value as written, in order.
pub open spec fn fields_text(fields: Seq<(Seq<char>, Option<Seq<char>>)>) -> Seq<char>
    decreases fields.len(),
{
    if fields.len() == 0 {
        Seq::empty()
    } else {
        fields_text(fields.drop_last()) + field_text(fields.last().0, fields.last().1)
    }
}

/// Those of `fields` that have a value, in order.
pub open spec fn supplied(fields: Seq<(Seq<char>, Option<Seq<char>>)>) -> Seq<
    (Seq<char>, Option<Seq<char>>),
>
    decreases fields.len(),
{
    if fields.len() == 0 {
        Seq::empty()
    } else if fields.last().1 is Some {
        supplied(fields.drop_last()).push(fields.last())
    } else {
        supplied(fields.drop_last())
    }
}

/// A body holds the elements of the fields that were supplied and no
/// others: leaving the omitted fields out of the list changes nothing, and
/// every field that remains has a value and so an element of its own.
pub proof fn law_body_holds_supplied_fields_only(fields: Seq<(Seq<char>, Option<Seq<char>>)>)
    ensures
        fields_text(fields) == fields_text(supplied(fields)),
        forall|i: int| 0 <= i < supplied(fields).len() ==> (#[trigger] supplied(fields)[i]).1 is Some,
        supplied(fields).len() <= fields.len(),
    decreases fields.len(),
{
    if fields.len() > 0 {
        let rest = fields.drop_last();
        law_body_holds_supplied_fields_only(rest);
        if fields.last().1 is Some {
            let kept = supplied(rest).push(fields.last());
            assert(kept.drop_last() =~= supplied(rest));
        }
    }
}

/// A field without a value leaves no trace in a body, whatever its kind:
/// no empty element stands for it.
pub proof fn law_omitted_field_adds_nothing(name: Seq<char>)
    ensures
        field_text(name, None).len() == 0,
        cdata_field_text(name, None).len() == 0,
        int_field_text(name, None).len() == 0,
{
}

/// A request body under construction: the name of its element and the
/// fields written so far.
pub struct XmlBody {
    pub root: String,
    pub content: String,
}

impl XmlBody {
    /// A body with the element `root` and no field yet.
    pub fn new(root: &str) -> (b: XmlBody)
        ensures
            b.root@ == root@,
            b.content@ == Seq::<char>::empty(),
    {
        XmlBody { root: String::from_str(root), content: String::new() }
    }

    /// Adds the element `name` around `content`, written as given.
    pub fn element(&mut self, name: &str, content: &str)
        ensures
            final(self).root == old(self).root,
            final(self).content@ == old(self).content@ + element_text(name@, content@),
    {
        self.content.append("<");
        self.content.append(name);
        self.content.append(">");
        self.content.append(content);
        self.content.append("</");
        self.content.append(name);
        self.content.append(">");
    }

    /// Adds `text` as it is.
    pub fn raw(&mut self, text: &str)
        ensures
            final(self).root == old(self).root,
            final(self).content@ == old(self).content@ + text@,
    {
        self.content.append(text);
    }

    /// Adds the field `name` where `value` is supplied.
    pub fn text(&mut self, name: &str, value: Option<&str>)
        ensures
            final(self).root == old(self).root,
            final(self).content@ == old(self).content@ + field_text(name@, opt_str(value)),
    {
        match value {
            Some(v) => {
                self.element(name, v);
            },
            None => {},
        }
    }

    /// Adds the free-text field `name`, in a CDATA section, where `value`
    /// is supplied.
    pub fn cdata(&mut self, name: &str, value: Option<&str>)
        ensures
            final(self).root == old(self).root,
            final(self).content@ == old(self).content@ + cdata_field_text(name@, opt_str(value)),
    {
        match value {
            Some(v) => {
                let mut section = String::from_str("<![CDATA[");
                section.append(v);
                section.append("]]>");
                self.element(name, section.as_str());
            },
            None => {},
        }
    }

    /// Adds the integer field `name` where `value` is supplied.
    pub fn integer(&mut self, name: &str, value: Option<i64>)
        ensures
            final(self).root == old(self).root,
            final(self).content@ == old(self).content@ + int_field_text(name@, value),
    {
        match value {
            Some(v) => {
                let mut digits = String::new();
                push_decimal(&mut digits, v);
                self.element(name, digits.as_str());
            },
            None => {},
        }
    }

    /// The finished body: the root element around the fields.
    pub fn finish(self) -> (body: String)
        ensures
            body@ == element_text(self.root@, self.content@),
    {
        let mut body = String::from_str("<");
        body.append(self.root.as_str());
        body.append(">");
        body.append(self.content.as_str());
        body.append("</");
        body.append(self.root.as_str());
        body.append(">");
        body
    }
}

} // verus!
