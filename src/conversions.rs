use vstd::prelude::*;

use crate::classes::JavaClass;
use crate::copies::{copy_method, copy_strings, same_method};
use crate::crud_builder::field_of_type;
use crate::enums::JavaEnum;
use crate::fields::Field;
use crate::interfaces::Interface;
use crate::methods::Method;
use crate::modifiers::AccessModifiers;
use crate::text::lower_of;
use crate::types::{GenericParams, TypeName};

verus! {

/// `t` names `name` with the generic parameters `gens`, or with none when
/// `gens` is empty.
pub open spec fn names_type(t: TypeName, name: Seq<char>, gens: Seq<String>) -> bool {
    &&& t.name@ == name
    &&& if gens.len() == 0 {
        t.generic_params is None
    } else {
        &&& t.generic_params is Some
        &&& t.generic_params->0.generics@.len() == gens.len()
        &&& forall|i: int|
            0 <= i < gens.len() ==> (#[trigger] t.generic_params->0.generics@[i])@ == gens[i]@
    }
}

fn type_with_generics(name: &String, gens: &Vec<String>) -> (r: TypeName)
    ensures
        names_type(r, name@, gens@),
{
    if gens.len() == 0 {
        TypeName::new(name.clone())
    } else {
        TypeName::new_with_generics(name.clone(), GenericParams::new(copy_strings(gens)))
    }
}

impl JavaClass {
    /// The class as a type: its name with its generic parameters.
    pub fn as_type(&self) -> (r: TypeName)
        ensures
            names_type(r, self.class_name@, self.generic_params.generics@),
    {
        type_with_generics(&self.class_name, &self.generic_params.generics)
    }

    /// A field holding this class, named after it in lower case.
    pub fn as_field(&self) -> (r: Field)
        ensures
            r.name@ == lower_of(self.class_name@),
            names_type(r.type_, self.class_name@, self.generic_params.generics@),
            r.modifiers@.len() == 0,
    {
        field_of_type(self.as_type())
    }
}

impl Interface {
    /// The interface as a type: its name with its generic parameters.
    pub fn as_type(&self) -> (r: TypeName)
        ensures
            names_type(r, self.name@, self.generics.generics@),
    {
        type_with_generics(&self.name, &self.generics.generics)
    }

    /// A field holding this interface, named after it in lower case.
    pub fn as_field(&self) -> (r: Field)
        ensures
            r.name@ == lower_of(self.name@),
            names_type(r.type_, self.name@, self.generics.generics@),
            r.modifiers@.len() == 0,
    {
        field_of_type(self.as_type())
    }

    /// A skeletal implementation `<Name>Impl` in the same package that
    /// implements this interface and declares each of its methods as public,
    /// with the body left for the caller to fill in.
    pub fn impl_class(&self) -> (r: JavaClass)
        ensures
            r.class_name@ == self.name@ + "Impl"@,
            r.package == self.package,
            r.implements@.len() == 1,
            names_type(r.implements@[0], self.name@, self.generics.generics@),
            r.imports@.len() == 0,
            r.class_annotations@.len() == 0,
            r.fields@.len() == 0,
            r.class_modifiers@.len() == 0,
            r.generic_params.generics@.len() == 0,
            r.superclass is None,
            r.methods@.len() == self.methods@.len(),
            forall|k: int|
                0 <= k < r.methods@.len() ==> (#[trigger] r.methods@[k]).modifiers@ == seq![AccessModifiers::Public]
                    && same_method((Method { modifiers: self.methods@[k].modifiers, ..r.methods@[k] }), self.methods@[k]),
    {
        let mut name = self.name.clone();
        name.append("Impl");
        proof {
            reveal_strlit("Impl");
        }
        let mut c = JavaClass::new(name, self.package.clone()).implements(self.as_type());
        let mut k: usize = 0;
        while k < self.methods.len()
            invariant
                0 <= k <= self.methods.len(),
                c.class_name@ == self.name@ + "Impl"@,
                c.package == self.package,
                c.implements@.len() == 1,
                names_type(c.implements@[0], self.name@, self.generics.generics@),
                c.imports@.len() == 0,
                c.class_annotations@.len() == 0,
                c.fields@.len() == 0,
                c.class_modifiers@.len() == 0,
                c.generic_params.generics@.len() == 0,
                c.superclass is None,
                c.methods@.len() == k,
                forall|j: int|
                    0 <= j < k ==> (#[trigger] c.methods@[j]).modifiers@ == seq![AccessModifiers::Public]
                        && same_method((Method { modifiers: self.methods@[j].modifiers, ..c.methods@[j] }), self.methods@[j]),
            decreases self.methods.len() - k,
        {
            let mut m = copy_method(&self.methods[k]);
            m.modifiers = Vec::new();
            let m = m.public();
            assert(m.modifiers@ =~= seq![AccessModifiers::Public]);
            c = c.method(m);
            k = k + 1;
        }
        c
    }
}

impl JavaEnum {
    /// The enum as a type.
    pub fn as_type(&self) -> (r: TypeName)
        ensures
            r.name@ == self.enum_name@,
            r.generic_params is None,
    {
        TypeName::new(self.enum_name.clone())
    }

    /// A field holding this enum, named after it in lower case.
    pub fn as_field(&self) -> (r: Field)
        ensures
            r.name@ == lower_of(self.enum_name@),
            r.type_.name@ == self.enum_name@,
            r.modifiers@.len() == 0,
    {
        field_of_type(self.as_type())
    }
}

} // verus!
