use vstd::prelude::*;

use crate::Codegen;

verus! {

/// A Java annotation: a qualified name and an optional ordered list of
/// `name = value` pairs.
#[derive(Clone)]
pub struct Annotation {
    pub qualified_name: String,
    pub params_list: Option<Vec<(String, String)>>,
}

/// The `name = value` pairs of an annotation, empty when it has no list.
pub open spec fn params_of(a: Annotation) -> Seq<(String, String)> {
    match a.params_list {
        Some(ps) => ps@,
        None => Seq::empty(),
    }
}

/// One `name = value` line per pair.
pub open spec fn param_lines(ps: Seq<(String, String)>) -> Seq<char>
    decreases ps.len(),
{
    if ps.len() == 0 {
        Seq::empty()
    } else {
        param_lines(ps.drop_last()) + ps.last().0@ + " = "@ + ps.last().1@ + "\n"@
    }
}

/// An annotation renders as `@Name` followed, when it has a parameter list,
/// by `(\n`, one `name = value\n` line per pair, and `)`; a newline ends it.
/// Values are written as given, without escaping.
pub open spec fn annotation_code(a: Annotation) -> Seq<char> {
    "@"@ + a.qualified_name@ + match a.params_list {
        Some(ps) => "(\n"@ + param_lines(ps@) + ")"@,
        None => Seq::empty(),
    } + "\n"@
}

/// A list of annotations renders each one after a newline.
pub open spec fn annotations_code(s: Seq<Annotation>) -> Seq<char>
    decreases s.len(),
{
    if s.len() == 0 {
        Seq::empty()
    } else {
        annotations_code(s.drop_last()) + "\n"@ + annotation_code(s.last())
    }
}

/// The concatenated renderings of the annotations, with no separator.
pub open spec fn annotations_inline(s: Seq<Annotation>) -> Seq<char>
    decreases s.len(),
{
    if s.len() == 0 {
        Seq::empty()
    } else {
        annotations_inline(s.drop_last()) + annotation_code(s.last())
    }
}

impl Annotation {
    /// The `@Autowired` annotation.
    pub fn autowired() -> (r: Self)
        ensures
            r.qualified_name@ == "Autowired"@,
            r.params_list is None,
    {
        Self { qualified_name: String::from_str("Autowired"), params_list: None }
    }

    pub fn new(qualified_name: String) -> (r: Self)
        ensures
            r.qualified_name@ == qualified_name@,
            r.params_list is None,
    {
        Self { params_list: None, qualified_name }
    }

    /// Appends one `name = value` pair.
    pub fn param(self, name: String, value: String) -> (r: Self)
        ensures
            r.qualified_name == self.qualified_name,
            r.params_list is Some,
            params_of(r) == params_of(self).push((name, value)),
    {
        let Annotation { qualified_name, params_list } = self;
        match params_list {
            None => Annotation { qualified_name, params_list: Some(vec![(name, value)]) },
            Some(mut ps) => {
                ps.push((name, value));
                Annotation { qualified_name, params_list: Some(ps) }
            },
        }
    }

    /// Appends the given `name = value` pairs, in order.
    pub fn params(self, name_val_pairs: Vec<(String, String)>) -> (r: Self)
        ensures
            r.qualified_name == self.qualified_name,
            r.params_list is Some,
            params_of(r) == params_of(self) + name_val_pairs@,
    {
        let Annotation { qualified_name, params_list } = self;
        match params_list {
            None => {
                assert(Seq::<(String, String)>::empty() + name_val_pairs@ =~= name_val_pairs@);
                Annotation { qualified_name, params_list: Some(name_val_pairs) }
            },
            Some(mut ps) => {
                let mut extra = name_val_pairs;
                ps.append(&mut extra);
                Annotation { qualified_name, params_list: Some(ps) }
            },
        }
    }
}

/// Two annotations are equal when their qualified names are;
/// nothing else is compared.
impl PartialEq for Annotation {
    fn eq(&self, other: &Annotation) -> (r: bool) {
        self.qualified_name == other.qualified_name
    }
}

impl vstd::std_specs::cmp::PartialEqSpecImpl for Annotation {
    open spec fn obeys_eq_spec() -> bool {
        true
    }

    open spec fn eq_spec(&self, other: &Annotation) -> bool {
        self.qualified_name@ == other.qualified_name@
    }
}

impl Eq for Annotation {}

/// An owned string converts into the annotation of that name, without
/// parameters.
impl From<String> for Annotation {
    fn from(qualified_name: String) -> (r: Self) {
        Annotation { qualified_name, params_list: None }
    }
}

impl vstd::std_specs::convert::FromSpecImpl<String> for Annotation {
    open spec fn obeys_from_spec() -> bool {
        true
    }

    open spec fn from_spec(qualified_name: String) -> Annotation {
        Annotation { qualified_name, params_list: None }
    }
}

impl Codegen for Annotation {
    open spec fn can_render(&self) -> bool {
        true
    }

    open spec fn rendered(&self) -> Seq<char> {
        annotation_code(*self)
    }

    fn generate_code(&self) -> (r: String) {
        let mut out = String::new();
        out.append("@");
        out.append(self.qualified_name.as_str());
        match &self.params_list {
            Some(ps) => {
                out.append("(\n");
                let ghost start = out@;
                let mut i: usize = 0;
                while i < ps.len()
                    invariant
                        0 <= i <= ps.len(),
                        out@ == start + param_lines(ps@.take(i as int)),
                    decreases ps.len() - i,
                {
                    out.append(ps[i].0.as_str());
                    out.append(" = ");
                    out.append(ps[i].1.as_str());
                    out.append("\n");
                    proof {
                        let t = ps@.take(i as int + 1);
                        assert(t.drop_last() =~= ps@.take(i as int));
                        assert(out@ =~= start + param_lines(t));
                    }
                    i = i + 1;
                }
                assert(ps@.take(ps.len() as int) =~= ps@);
                out.append(")");
            },
            None => {},
        }
        out.append("\n");
        assert(out@ =~= annotation_code(*self));
        out
    }
}

/// Appends the renderings of `anns`, with no separator.
pub fn push_annotations_inline(out: &mut String, anns: &Vec<Annotation>)
    ensures
        final(out)@ == old(out)@ + annotations_inline(anns@),
{
    let ghost start = out@;
    let mut i: usize = 0;
    while i < anns.len()
        invariant
            0 <= i <= anns.len(),
            out@ == start + annotations_inline(anns@.take(i as int)),
        decreases anns.len() - i,
    {
        let code = anns[i].generate_code();
        out.append(code.as_str());
        proof {
            let t = anns@.take(i as int + 1);
            assert(t.drop_last() =~= anns@.take(i as int));
            assert(out@ =~= start + annotations_inline(t));
        }
        i = i + 1;
    }
    assert(anns@.take(anns.len() as int) =~= anns@);
}

impl Codegen for Vec<Annotation> {
    open spec fn can_render(&self) -> bool {
        true
    }

    open spec fn rendered(&self) -> Seq<char> {
        annotations_code(self@)
    }

    fn generate_code(&self) -> (r: String) {
        let mut out = String::new();
        let mut i: usize = 0;
        while i < self.len()
            invariant
                0 <= i <= self.len(),
                out@ == annotations_code(self@.take(i as int)),
            decreases self.len() - i,
        {
            out.append("\n");
            let code = self[i].generate_code();
            out.append(code.as_str());
            proof {
                let t = self@.take(i as int + 1);
                assert(t.drop_last() =~= self@.take(i as int));
                assert(out@ =~= annotations_code(t));
            }
            i = i + 1;
        }
        assert(self@.take(self.len() as int) =~= self@);
        out
    }
}

} // verus!
