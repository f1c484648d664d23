//! Conversions written out as source text.
//!
//! A construction is rendered as an implementation of `From` for the target,
//! from the type of the single active member or from the tuple of the active
//! members' types. Where a member is filled by default, the implementation
//! holds only where the target offers a default value. An extraction is rendered as an implementation of `From`
//! for the active member's type, from the target.

use crate::conversion::{
    active, first_active, Conversion, ConversionModel, Direction, Layout, LayoutModel, Member,
    MemberModel,
};
use crate::text::{append_decimal, append_joined, decimal, join};
use vstd::prelude::*;

verus! {

/// The text of a name; none where there is no name.
pub open spec fn name_text(name: Option<Seq<char>>) -> Seq<char> {
    match name {
        Some(name) => name,
        None => Seq::empty(),
    }
}

/// The expression that yields a default value.
pub open spec fn default_expression() -> Seq<char> {
    "::core::default::Default::default()"@
}

/// The expression for the value at position `k` of the input: the input
/// itself where it is a single value, else the tuple's element.
pub open spec fn value_expression(single: bool, k: int) -> Seq<char> {
    if single {
        "value"@
    } else {
        "value."@ + decimal(k as nat)
    }
}

impl ConversionModel {
    /// The generic parameters in angle brackets.
    pub open spec fn generics_text(self) -> Seq<char> {
        "<"@ + join(self.generics, ", "@) + ">"@
    }

    /// The target with its generic parameters.
    pub open spec fn target_text(self) -> Seq<char> {
        self.target + self.generics_text()
    }

    /// The type of the values: that of the single active member, else the
    /// tuple of the active members' types.
    pub open spec fn source_text(self) -> Seq<char> {
        if self.arity() == 1 {
            self.source_types()[0]
        } else {
            "("@ + join(self.source_types(), ", "@) + ")"@
        }
    }

    /// How `expression` is given to `member`: under the member's name in a
    /// record, bare otherwise.
    pub open spec fn entry_text(self, member: MemberModel, expression: Seq<char>) -> Seq<char> {
        if self.layout is Named {
            name_text(member.name) + ": "@ + expression
        } else {
            expression
        }
    }

    /// The entries for the active members among the first `n`: each takes the
    /// next value of the input.
    pub open spec fn active_entries(self, n: int) -> Seq<Seq<char>>
        decreases n,
    {
        if n <= 0 {
            Seq::empty()
        } else if self.members[n - 1].excluded {
            self.active_entries(n - 1)
        } else {
            self.active_entries(n - 1).push(
                self.entry_text(
                    self.members[n - 1],
                    value_expression(
                        self.arity() == 1,
                        active(self.members, n - 1).len() as int,
                    ),
                ),
            )
        }
    }

    /// The entries for the excluded members among the first `n`: each takes a
    /// default value.
    pub open spec fn default_entries(self, n: int) -> Seq<Seq<char>>
        decreases n,
    {
        if n <= 0 {
            Seq::empty()
        } else if self.members[n - 1].excluded {
            self.default_entries(n - 1).push(
                self.entry_text(self.members[n - 1], default_expression()),
            )
        } else {
            self.default_entries(n - 1)
        }
    }

    /// The entries of the constructed instance: the active members in
    /// declaration order, then the excluded members in declaration order.
    pub open spec fn entries(self) -> Seq<Seq<char>> {
        self.active_entries(self.members.len() as int) + self.default_entries(
            self.members.len() as int,
        )
    }

    /// The expression that builds the instance.
    pub open spec fn body_text(self) -> Seq<char> {
        match self.layout {
            LayoutModel::Named => "Self { "@ + join(self.entries(), ", "@) + " }"@,
            LayoutModel::Positional => "Self("@ + join(self.entries(), ", "@) + ")"@,
            LayoutModel::Variant(name) => "Self::"@ + name + "("@ + join(self.entries(), ", "@)
                + ")"@,
        }
    }

    /// The clause that makes the host check that the target, with its
    /// parameters, offers a default value; nothing where no member is filled by
    /// default.
    pub open spec fn obligation_text(self) -> Seq<char> {
        if self.needs_default() {
            " where "@ + self.target_text() + ": ::core::default::Default"@
        } else {
            Seq::empty()
        }
    }

    /// How the first active member is reached in an instance: by its name in
    /// a record, by its position otherwise.
    pub open spec fn accessor_text(self) -> Seq<char> {
        let position = first_active(self.members, self.members.len() as int);
        if position >= self.members.len() {
            Seq::empty()
        } else if self.layout is Named {
            name_text(self.members[position].name)
        } else {
            decimal(position as nat)
        }
    }

    /// The source text of the conversion.
    pub open spec fn rendered(self) -> Seq<char> {
        match self.direction {
            Direction::Construct => "impl"@ + self.generics_text() + " From<"@ + self.source_text()
                + "> for "@ + self.target_text() + self.obligation_text() + " { fn from(value: "@
                + self.source_text() + ") -> Self { "@ + self.body_text() + " } }"@,
            Direction::Extract => "impl"@ + self.generics_text() + " From<"@ + self.target_text()
                + "> for "@ + self.source_text() + " { fn from(value: "@ + self.target_text()
                + ") -> Self { value."@ + self.accessor_text() + " } }"@,
        }
    }
}

/// The texts of `conversions`, one after the other.
pub open spec fn rendered_each(conversions: Seq<ConversionModel>) -> Seq<Seq<char>> {
    Seq::new(conversions.len(), |i: int| conversions[i].rendered())
}

/// The texts of `conversions`, each on a line of its own.
pub open spec fn rendered_all(conversions: Seq<ConversionModel>) -> Seq<char> {
    join(rendered_each(conversions), "\n"@)
}

fn append_name(out: &mut String, name: &Option<String>)
    ensures
        final(out)@ == old(out)@ + name_text(name.deep_view()),
{
    match name {
        Some(name) => {
            out.append(name.as_str());
        },
        None => {
            assert(out@ =~= old(out)@ + name_text(name.deep_view()));
        },
    }
}

impl Conversion {
    fn append_generics(&self, out: &mut String)
        ensures
            final(out)@ == old(out)@ + self@.generics_text(),
    {
        out.append("<");
        append_joined(out, &self.generics, ", ");
        out.append(">");
        assert(out@ =~= old(out)@ + self@.generics_text());
    }

    fn append_target(&self, out: &mut String)
        ensures
            final(out)@ == old(out)@ + self@.target_text(),
    {
        out.append(self.target.as_str());
        self.append_generics(out);
        assert(out@ =~= old(out)@ + self@.target_text());
    }

    fn append_source(&self, out: &mut String)
        ensures
            final(out)@ == old(out)@ + self@.source_text(),
    {
        let types = self.source_types();
        if types.len() == 1 {
            out.append(types[0].as_str());
        } else {
            out.append("(");
            append_joined(out, &types, ", ");
            out.append(")");
            assert(out@ =~= old(out)@ + self@.source_text());
        }
    }

    fn entry(&self, member: &Member, expression: String) -> (text: String)
        ensures
            text@ == self@.entry_text(member@, expression@),
    {
        match &self.layout {
            Layout::Named => {
                let mut text = String::new();
                append_name(&mut text, &member.name);
                text.append(": ");
                text.append(expression.as_str());
                assert(text@ =~= self@.entry_text(member@, expression@));
                text
            },
            _ => expression,
        }
    }

    fn entries(&self) -> (entries: Vec<String>)
        ensures
            entries.deep_view() == self@.entries(),
    {
        let single = self.arity() == 1;
        let mut entries: Vec<String> = Vec::new();
        let mut taken: usize = 0;
        let mut i: usize = 0;
        while i < self.members.len()
            invariant
                i <= self.members.len(),
                single == (self@.arity() == 1),
                taken == active(self@.members, i as int).len(),
                taken <= i,
                entries.deep_view() == self@.active_entries(i as int),
            decreases self.members.len() - i,
        {
            if !self.members[i].excluded {
                let mut expression = if single {
                    String::from_str("value")
                } else {
                    String::from_str("value.")
                };
                if !single {
                    append_decimal(&mut expression, taken);
                }
                assert(expression@ =~= value_expression(single, taken as int));
                let text = self.entry(&self.members[i], expression);
                let ghost before = entries.deep_view();
                entries.push(text);
                assert(entries.deep_view() =~= before.push(text@));
                taken += 1;
            }
            i += 1;
        }
        let ghost actives = entries.deep_view();
        let mut i: usize = 0;
        while i < self.members.len()
            invariant
                i <= self.members.len(),
                actives == self@.active_entries(self.members.len() as int),
                entries.deep_view() == actives + self@.default_entries(i as int),
            decreases self.members.len() - i,
        {
            if self.members[i].excluded {
                let expression = String::from_str("::core::default::Default::default()");
                let text = self.entry(&self.members[i], expression);
                let ghost before = entries.deep_view();
                entries.push(text);
                assert(entries.deep_view() =~= before.push(text@));
                assert(entries.deep_view() =~= actives + self@.default_entries(i + 1));
            }
            i += 1;
        }
        entries
    }

    fn append_body(&self, out: &mut String)
        ensures
            final(out)@ == old(out)@ + self@.body_text(),
    {
        let entries = self.entries();
        match &self.layout {
            Layout::Named => {
                out.append("Self { ");
                append_joined(out, &entries, ", ");
                out.append(" }");
            },
            Layout::Positional => {
                out.append("Self(");
                append_joined(out, &entries, ", ");
                out.append(")");
            },
            Layout::Variant(name) => {
                out.append("Self::");
                out.append(name.as_str());
                out.append("(");
                append_joined(out, &entries, ", ");
                out.append(")");
            },
        }
        assert(out@ =~= old(out)@ + self@.body_text());
    }

    fn append_obligation(&self, out: &mut String)
        ensures
            final(out)@ == old(out)@ + self@.obligation_text(),
    {
        if self.needs_default() {
            out.append(" where ");
            self.append_target(out);
            out.append(": ::core::default::Default");
        }
        assert(out@ =~= old(out)@ + self@.obligation_text());
    }

    fn append_accessor(&self, out: &mut String)
        ensures
            final(out)@ == old(out)@ + self@.accessor_text(),
    {
        let position = self.first_active_position();
        if position < self.members.len() {
            match &self.layout {
                Layout::Named => {
                    append_name(out, &self.members[position].name);
                },
                _ => {
                    append_decimal(out, position);
                },
            }
        } else {
            assert(out@ =~= old(out)@ + self@.accessor_text());
        }
    }

    /// Writes the conversion out as source text.
    pub fn render(&self) -> (text: String)
        ensures
            text@ == self@.rendered(),
    {
        let mut out = String::new();
        out.append("impl");
        self.append_generics(&mut out);
        out.append(" From<");
        match self.direction {
            Direction::Construct => {
                self.append_source(&mut out);
                out.append("> for ");
                self.append_target(&mut out);
                self.append_obligation(&mut out);
                out.append(" { fn from(value: ");
                self.append_source(&mut out);
                out.append(") -> Self { ");
                self.append_body(&mut out);
                out.append(" } }");
            },
            Direction::Extract => {
                self.append_target(&mut out);
                out.append("> for ");
                self.append_source(&mut out);
                out.append(" { fn from(value: ");
                self.append_target(&mut out);
                out.append(") -> Self { value.");
                self.append_accessor(&mut out);
                out.append(" } }");
            },
        }
        assert(out@ =~= self@.rendered());
        out
    }
}

/// Writes `conversions` out as source text, each on a line of its own.
pub fn render_all(conversions: &Vec<Conversion>) -> (text: String)
    ensures
        text@ == rendered_all(conversions.deep_view()),
{
    let mut texts: Vec<String> = Vec::new();
    let mut i: usize = 0;
    while i < conversions.len()
        invariant
            i <= conversions.len(),
            texts.deep_view() == rendered_each(conversions.deep_view()).take(i as int),
        decreases conversions.len() - i,
    {
        let text = conversions[i].render();
        let ghost before = texts.deep_view();
        texts.push(text);
        assert(texts.deep_view() =~= before.push(text@));
        assert(texts.deep_view() =~= rendered_each(conversions.deep_view()).take(i + 1));
        i += 1;
    }
    assert(texts.deep_view() =~= rendered_each(conversions.deep_view()));
    let mut out = String::new();
    append_joined(&mut out, &texts, "\n");
    assert(out@ =~= rendered_all(conversions.deep_view()));
    out
}

} // verus!
