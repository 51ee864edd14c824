use vstd::prelude::*;

use crate::annotations::{annotation_code, annotations_code, annotations_inline, param_lines, Annotation};
use crate::classes::{class_code, class_header, extends_code, fields_code, methods_code, name_needs_gap, JavaClass};
use crate::fields::{field_code, Field};
use crate::imports::imports_code;
use crate::methods::{method_code, method_header, params_code, Method};
use crate::modifiers::modifiers_code;
use crate::text::contains_sub;
use crate::types::{generics_code, implements_code, join_types, type_code, TypeName};

verus! {

/// Text inside `m` is inside anything that has `m` in its middle.
pub proof fn lemma_sub_in_middle(p: Seq<char>, m: Seq<char>, s: Seq<char>, x: Seq<char>)
    requires
        contains_sub(m, x),
    ensures
        contains_sub(p + m + s, x),
{
    let i = choose|i: int| 0 <= i && i + x.len() <= m.len() && #[trigger] m.subrange(i, i + x.len()) == x;
    let w = p + m + s;
    assert(w.subrange(p.len() + i, p.len() + i + x.len()) =~= m.subrange(i, i + x.len()));
}

/// A sequence contains itself.
pub proof fn lemma_sub_self(x: Seq<char>)
    ensures
        contains_sub(x, x),
{
    assert(x.subrange(0, 0 + x.len() as int) =~= x);
}

/// `x` is inside `p + x + s`.
proof fn lemma_sub_placed(p: Seq<char>, x: Seq<char>, s: Seq<char>)
    ensures
        contains_sub(p + x + s, x),
{
    lemma_sub_self(x);
    lemma_sub_in_middle(p, x, s, x);
}

/// An annotation's rendering holds `@` and its qualified name.
pub proof fn lemma_annotation_mentions_name(a: Annotation)
    ensures
        contains_sub(annotation_code(a), "@"@ + a.qualified_name@),
{
    let x = "@"@ + a.qualified_name@;
    let rest = match a.params_list {
        Some(ps) => "(\n"@ + param_lines(ps@) + ")"@,
        None => Seq::<char>::empty(),
    } + "\n"@;
    lemma_sub_placed(Seq::empty(), x, rest);
    assert(annotation_code(a) =~= Seq::empty() + x + rest);
}

/// Every annotation of a list, rendered with newlines, is mentioned.
pub proof fn lemma_annotations_mention(s: Seq<Annotation>, k: int)
    requires
        0 <= k < s.len(),
    ensures
        contains_sub(annotations_code(s), "@"@ + s[k].qualified_name@),
    decreases s.len(),
{
    let x = "@"@ + s[k].qualified_name@;
    if k == s.len() - 1 {
        lemma_annotation_mentions_name(s[k]);
        lemma_sub_in_middle(annotations_code(s.drop_last()) + "\n"@, annotation_code(s[k]), Seq::empty(), x);
        assert(annotations_code(s) =~= annotations_code(s.drop_last()) + "\n"@ + annotation_code(s[k]) + Seq::empty());
    } else {
        lemma_annotations_mention(s.drop_last(), k);
        lemma_sub_in_middle(Seq::empty(), annotations_code(s.drop_last()), "\n"@ + annotation_code(s.last()), x);
        assert(annotations_code(s) =~= Seq::empty() + annotations_code(s.drop_last()) + ("\n"@ + annotation_code(s.last())));
    }
}

/// Every annotation of a list, rendered one after another, is mentioned.
pub proof fn lemma_inline_annotations_mention(s: Seq<Annotation>, k: int)
    requires
        0 <= k < s.len(),
    ensures
        contains_sub(annotations_inline(s), "@"@ + s[k].qualified_name@),
    decreases s.len(),
{
    let x = "@"@ + s[k].qualified_name@;
    if k == s.len() - 1 {
        lemma_annotation_mentions_name(s[k]);
        lemma_sub_in_middle(annotations_inline(s.drop_last()), annotation_code(s[k]), Seq::empty(), x);
        assert(annotations_inline(s) =~= annotations_inline(s.drop_last()) + annotation_code(s[k]) + Seq::empty());
    } else {
        lemma_inline_annotations_mention(s.drop_last(), k);
        lemma_sub_in_middle(Seq::empty(), annotations_inline(s.drop_last()), annotation_code(s.last()), x);
        assert(annotations_inline(s) =~= Seq::empty() + annotations_inline(s.drop_last()) + annotation_code(s.last()));
    }
}

/// A field's rendering mentions its name and each of its annotations.
pub proof fn lemma_field_mentions(f: Field)
    ensures
        contains_sub(field_code(f), f.name@),
        forall|j: int|
            0 <= j < f.annotation@.len() ==> contains_sub(field_code(f), "@"@ + (#[trigger] f.annotation@[j]).qualified_name@),
{
    let anns = annotations_inline(f.annotation@);
    let p = "    "@ + anns + "    "@ + modifiers_code(f.modifiers@) + type_code(f.type_) + " "@;
    let s = ";\n"@ + match f.initializer {
        Some(i) => " = "@ + i@,
        None => Seq::<char>::empty(),
    };
    lemma_sub_placed(p, f.name@, s);
    assert(field_code(f) =~= p + f.name@ + s);
    let after = "    "@ + modifiers_code(f.modifiers@) + type_code(f.type_) + " "@ + f.name@ + s;
    assert(field_code(f) =~= "    "@ + anns + after);
    assert forall|j: int|
        0 <= j < f.annotation@.len() implies contains_sub(field_code(f), "@"@ + (#[trigger] f.annotation@[j]).qualified_name@) by {
        lemma_inline_annotations_mention(f.annotation@, j);
        lemma_sub_in_middle("    "@, anns, after, "@"@ + f.annotation@[j].qualified_name@);
    }
}

/// A method's rendering mentions its name and each of its annotations.
pub proof fn lemma_method_mentions(m: Method)
    ensures
        contains_sub(method_code(m), m.name@),
        forall|j: int|
            0 <= j < m.annotations@.len() ==> contains_sub(method_code(m), "@"@ + (#[trigger] m.annotations@[j]).qualified_name@),
{
    let code = method_code(m);
    let anns = annotations_code(m.annotations@);
    let p = anns + modifiers_code(m.modifiers@) + type_code(m.return_type) + " "@;
    let tail = code.subrange(method_header(m).len() as int, code.len() as int);
    let s = params_code(m.parameters@) + tail;
    lemma_sub_placed(p, m.name@, s);
    assert(code =~= p + m.name@ + s);
    let after = code.subrange(anns.len() as int, code.len() as int);
    assert(code =~= Seq::empty() + anns + after);
    assert forall|j: int|
        0 <= j < m.annotations@.len() implies contains_sub(code, "@"@ + (#[trigger] m.annotations@[j]).qualified_name@) by {
        lemma_annotations_mention(m.annotations@, j);
        lemma_sub_in_middle(Seq::empty(), anns, after, "@"@ + m.annotations@[j].qualified_name@);
    }
}

/// What one field's rendering holds, the rendering of the fields holds.
pub proof fn lemma_fields_contain(fs: Seq<Field>, k: int, x: Seq<char>)
    requires
        0 <= k < fs.len(),
        contains_sub(field_code(fs[k]), x),
    ensures
        contains_sub(fields_code(fs), x),
    decreases fs.len(),
{
    if k == fs.len() - 1 {
        lemma_sub_in_middle(fields_code(fs.drop_last()), field_code(fs[k]), Seq::empty(), x);
        assert(fields_code(fs) =~= fields_code(fs.drop_last()) + field_code(fs[k]) + Seq::empty());
    } else {
        lemma_fields_contain(fs.drop_last(), k, x);
        lemma_sub_in_middle(Seq::empty(), fields_code(fs.drop_last()), field_code(fs.last()), x);
        assert(fields_code(fs) =~= Seq::empty() + fields_code(fs.drop_last()) + field_code(fs.last()));
    }
}

/// What one method's rendering holds, the rendering of the methods holds.
pub proof fn lemma_methods_contain(ms: Seq<Method>, k: int, x: Seq<char>)
    requires
        0 <= k < ms.len(),
        contains_sub(method_code(ms[k]), x),
    ensures
        contains_sub(methods_code(ms), x),
    decreases ms.len(),
{
    if k == ms.len() - 1 {
        lemma_sub_in_middle(methods_code(ms.drop_last()), method_code(ms[k]), Seq::empty(), x);
        assert(methods_code(ms) =~= methods_code(ms.drop_last()) + method_code(ms[k]) + Seq::empty());
    } else {
        lemma_methods_contain(ms.drop_last(), k, x);
        lemma_sub_in_middle(Seq::empty(), methods_code(ms.drop_last()), method_code(ms.last()), x);
        assert(methods_code(ms) =~= Seq::empty() + methods_code(ms.drop_last()) + method_code(ms.last()));
    }
}

/// Every implemented type name occurs in the joined type list.
pub proof fn lemma_types_mention(ts: Seq<TypeName>, k: int)
    requires
        0 <= k < ts.len(),
    ensures
        contains_sub(join_types(ts), ts[k].name@),
    decreases ts.len(),
{
    let x = ts[k].name@;
    let g = match ts[k].generic_params {
        Some(g) => generics_code(g.generics@),
        None => Seq::<char>::empty(),
    };
    if ts.len() == 1 {
        lemma_sub_placed(Seq::empty(), x, g);
        assert(join_types(ts) =~= Seq::empty() + x + g);
    } else if k == ts.len() - 1 {
        lemma_sub_placed(join_types(ts.drop_last()) + ", "@, x, g);
        assert(join_types(ts) =~= join_types(ts.drop_last()) + ", "@ + x + g);
    } else {
        lemma_types_mention(ts.drop_last(), k);
        lemma_sub_in_middle(Seq::empty(), join_types(ts.drop_last()), ", "@ + type_code(ts.last()), x);
        assert(join_types(ts) =~= Seq::empty() + join_types(ts.drop_last()) + (", "@ + type_code(ts.last())));
    }
}

/// The text before the class header in a class rendering.
spec fn before_header(c: JavaClass) -> Seq<char> {
    "package "@ + c.package@ + ";\n"@ + "\n"@ + imports_code(c.imports@) + "\n"@
}

/// What follows the class header in a class rendering.
spec fn after_header(c: JavaClass) -> Seq<char> {
    "{"@ + "\n"@ + fields_code(c.fields@) + methods_code(c.methods@) + "\n}\n"@
}

/// The class header up to the generic parameters.
spec fn header_head(c: JavaClass) -> Seq<char> {
    annotations_code(c.class_annotations@) + modifiers_code(c.class_modifiers@) + "class "@ + c.class_name@
        + generics_code(c.generic_params.generics@)
}

/// The space, if any, after the class name and generics.
spec fn header_gap(c: JavaClass) -> Seq<char> {
    if name_needs_gap(c) {
        " "@
    } else {
        Seq::empty()
    }
}

proof fn lemma_header_parts(c: JavaClass)
    ensures
        class_header(c) =~= header_head(c) + header_gap(c) + extends_code(c.superclass) + implements_code(c.implements@),
{
}

proof fn lemma_header_mentions(c: JavaClass, x: Seq<char>)
    requires
        contains_sub(class_header(c), x),
    ensures
        contains_sub(class_code(c), x),
{
    assert(class_code(c) =~= before_header(c) + class_header(c) + after_header(c));
    lemma_sub_in_middle(before_header(c), class_header(c), after_header(c), x);
}

proof fn lemma_body_mentions(c: JavaClass, x: Seq<char>)
    requires
        contains_sub(fields_code(c.fields@) + methods_code(c.methods@), x),
    ensures
        contains_sub(class_code(c), x),
{
    let p = before_header(c) + class_header(c) + "{"@ + "\n"@;
    lemma_sub_in_middle(p, fields_code(c.fields@) + methods_code(c.methods@), "\n}\n"@, x);
    assert(class_code(c) =~= p + (fields_code(c.fields@) + methods_code(c.methods@)) + "\n}\n"@);
}

proof fn lemma_mentions_package(c: JavaClass)
    ensures
        contains_sub(class_code(c), "package "@ + c.package@),
{
    let pk = "package "@ + c.package@;
    let rest = ";\n"@ + "\n"@ + imports_code(c.imports@) + "\n"@;
    lemma_sub_placed(Seq::empty(), pk, rest);
    assert(before_header(c) =~= Seq::empty() + pk + rest);
    lemma_sub_in_middle(Seq::empty(), before_header(c), class_header(c) + after_header(c), pk);
    assert(class_code(c) =~= Seq::empty() + before_header(c) + (class_header(c) + after_header(c)));
}

proof fn lemma_mentions_class_name(c: JavaClass)
    ensures
        contains_sub(class_code(c), "class "@ + c.class_name@),
{
    let anns = annotations_code(c.class_annotations@);
    let mods = modifiers_code(c.class_modifiers@);
    let cl = "class "@ + c.class_name@;
    let h = class_header(c);
    let rest = h.subrange((anns + mods + cl).len() as int, h.len() as int);
    assert(h =~= anns + mods + cl + rest);
    lemma_sub_placed(anns + mods, cl, rest);
    lemma_header_mentions(c, cl);
}

proof fn lemma_mentions_superclass(c: JavaClass)
    requires
        c.superclass is Some,
    ensures
        contains_sub(class_code(c), "extends "@ + c.superclass->0.name@),
{
    lemma_header_parts(c);
    let ex = "extends "@ + c.superclass->0.name@;
    let e = extends_code(c.superclass);
    let e_rest = e.subrange(ex.len() as int, e.len() as int);
    assert(e =~= Seq::empty() + ex + e_rest);
    lemma_sub_placed(Seq::empty(), ex, e_rest);
    lemma_sub_in_middle(header_head(c) + header_gap(c), e, implements_code(c.implements@), ex);
    lemma_header_mentions(c, ex);
}

proof fn lemma_mentions_implements(c: JavaClass, x: Seq<char>)
    requires
        contains_sub(implements_code(c.implements@), x),
    ensures
        contains_sub(class_code(c), x),
{
    lemma_header_parts(c);
    let pre = header_head(c) + header_gap(c) + extends_code(c.superclass);
    lemma_sub_in_middle(pre, implements_code(c.implements@), Seq::empty(), x);
    assert(class_header(c) =~= pre + implements_code(c.implements@) + Seq::empty());
    lemma_header_mentions(c, x);
}

proof fn lemma_mentions_interfaces(c: JavaClass)
    requires
        c.implements@.len() > 0,
    ensures
        contains_sub(class_code(c), "implements "@),
        forall|k: int| 0 <= k < c.implements@.len() ==> contains_sub(class_code(c), (#[trigger] c.implements@[k]).name@),
{
    let im = implements_code(c.implements@);
    lemma_sub_placed(Seq::empty(), "implements "@, join_types(c.implements@) + " "@);
    assert(im =~= Seq::empty() + "implements "@ + (join_types(c.implements@) + " "@));
    lemma_mentions_implements(c, "implements "@);
    assert forall|k: int| 0 <= k < c.implements@.len() implies contains_sub(class_code(c), (#[trigger] c.implements@[k]).name@) by {
        lemma_types_mention(c.implements@, k);
        lemma_sub_in_middle("implements "@, join_types(c.implements@), " "@, c.implements@[k].name@);
        lemma_mentions_implements(c, c.implements@[k].name@);
    }
}

proof fn lemma_mentions_annotation(c: JavaClass, k: int)
    requires
        0 <= k < c.class_annotations@.len(),
    ensures
        contains_sub(class_code(c), "@"@ + c.class_annotations@[k].qualified_name@),
{
    let anns = annotations_code(c.class_annotations@);
    let h = class_header(c);
    let x = "@"@ + c.class_annotations@[k].qualified_name@;
    lemma_annotations_mention(c.class_annotations@, k);
    lemma_sub_in_middle(Seq::empty(), anns, h.subrange(anns.len() as int, h.len() as int), x);
    assert(h =~= Seq::empty() + anns + h.subrange(anns.len() as int, h.len() as int));
    lemma_header_mentions(c, x);
}

proof fn lemma_mentions_in_field(c: JavaClass, k: int, x: Seq<char>)
    requires
        0 <= k < c.fields@.len(),
        contains_sub(field_code(c.fields@[k]), x),
    ensures
        contains_sub(class_code(c), x),
{
    lemma_fields_contain(c.fields@, k, x);
    lemma_sub_in_middle(Seq::empty(), fields_code(c.fields@), methods_code(c.methods@), x);
    assert(fields_code(c.fields@) + methods_code(c.methods@) =~= Seq::empty() + fields_code(c.fields@) + methods_code(c.methods@));
    lemma_body_mentions(c, x);
}

proof fn lemma_mentions_in_method(c: JavaClass, k: int, x: Seq<char>)
    requires
        0 <= k < c.methods@.len(),
        contains_sub(method_code(c.methods@[k]), x),
    ensures
        contains_sub(class_code(c), x),
{
    lemma_methods_contain(c.methods@, k, x);
    lemma_sub_in_middle(fields_code(c.fields@), methods_code(c.methods@), Seq::empty(), x);
    assert(fields_code(c.fields@) + methods_code(c.methods@) =~= fields_code(c.fields@) + methods_code(c.methods@) + Seq::empty());
    lemma_body_mentions(c, x);
}

/// The rendering of a class mentions its package declaration, `class` and
/// its name, `extends` and the superclass name, `implements` and every
/// implemented interface, every field and method name, and `@` with the
/// name of every annotation of the class, of its fields and of its methods.
pub proof fn lemma_class_code_mentions_its_parts(c: JavaClass)
    ensures
        contains_sub(class_code(c), "package "@ + c.package@),
        contains_sub(class_code(c), "class "@ + c.class_name@),
        c.superclass is Some ==> contains_sub(class_code(c), "extends "@ + c.superclass->0.name@),
        c.implements@.len() > 0 ==> contains_sub(class_code(c), "implements "@),
        forall|k: int| 0 <= k < c.implements@.len() ==> contains_sub(class_code(c), (#[trigger] c.implements@[k]).name@),
        forall|k: int| 0 <= k < c.fields@.len() ==> contains_sub(class_code(c), (#[trigger] c.fields@[k]).name@),
        forall|k: int| 0 <= k < c.methods@.len() ==> contains_sub(class_code(c), (#[trigger] c.methods@[k]).name@),
        forall|k: int|
            0 <= k < c.class_annotations@.len() ==> contains_sub(class_code(c), "@"@ + (#[trigger] c.class_annotations@[k]).qualified_name@),
        forall|k: int, j: int|
            0 <= k < c.fields@.len() && 0 <= j < c.fields@[k].annotation@.len() ==> contains_sub(
                class_code(c),
                "@"@ + (#[trigger] c.fields@[k].annotation@[j]).qualified_name@,
            ),
        forall|k: int, j: int|
            0 <= k < c.methods@.len() && 0 <= j < c.methods@[k].annotations@.len() ==> contains_sub(
                class_code(c),
                "@"@ + (#[trigger] c.methods@[k].annotations@[j]).qualified_name@,
            ),
{
    lemma_mentions_package(c);
    lemma_mentions_class_name(c);
    if c.superclass is Some {
        lemma_mentions_superclass(c);
    }
    if c.implements@.len() > 0 {
        lemma_mentions_interfaces(c);
    }
    assert forall|k: int| 0 <= k < c.fields@.len() implies contains_sub(class_code(c), (#[trigger] c.fields@[k]).name@) by {
        lemma_field_mentions(c.fields@[k]);
        lemma_mentions_in_field(c, k, c.fields@[k].name@);
    }
    assert forall|k: int| 0 <= k < c.methods@.len() implies contains_sub(class_code(c), (#[trigger] c.methods@[k]).name@) by {
        lemma_method_mentions(c.methods@[k]);
        lemma_mentions_in_method(c, k, c.methods@[k].name@);
    }
    assert forall|k: int|
        0 <= k < c.class_annotations@.len() implies contains_sub(class_code(c), "@"@ + (#[trigger] c.class_annotations@[k]).qualified_name@) by {
        lemma_mentions_annotation(c, k);
    }
    assert forall|k: int, j: int|
        0 <= k < c.fields@.len() && 0 <= j < c.fields@[k].annotation@.len() implies contains_sub(
            class_code(c),
            "@"@ + (#[trigger] c.fields@[k].annotation@[j]).qualified_name@,
        ) by {
        lemma_field_mentions(c.fields@[k]);
        lemma_mentions_in_field(c, k, "@"@ + c.fields@[k].annotation@[j].qualified_name@);
    }
    assert forall|k: int, j: int|
        0 <= k < c.methods@.len() && 0 <= j < c.methods@[k].annotations@.len() implies contains_sub(
            class_code(c),
            "@"@ + (#[trigger] c.methods@[k].annotations@[j]).qualified_name@,
        ) by {
        lemma_method_mentions(c.methods@[k]);
        lemma_mentions_in_method(c, k, "@"@ + c.methods@[k].annotations@[j].qualified_name@);
    }
}

} // verus!
