//! What a plugin tells its host about itself: modules, types, functions,
//! parameters and traits.
//!
//! A description is generic in two things the host only carries along and
//! never looks into: `C`, the callable that runs a function, and `V`, the
//! value that a parameter holds by default or that a keyword argument
//! passes.

use std::any::TypeId;
use vstd::prelude::*;
use crate::error::DuskError;
use crate::request::InterplugRequest;

verus! {

/// `std::any::TypeId`, carried as it is: nothing is assumed of its values.
#[verifier::external_type_specification]
#[verifier::external_body]
pub struct ExTypeId(TypeId);

/// `std::any::TypeId` is `Copy`: its `clone` gives back the same value.
pub assume_specification[ <TypeId as Clone>::clone ](t: &TypeId) -> (r: TypeId)
    ensures
        r == *t,
;

/// The `TypeId` of `u8`, the placeholder type of default descriptions.
///
/// Calls `std::any::TypeId::of::<u8>()`; nothing is claimed of the result.
#[verifier::external_body]
fn type_id_of_u8() -> TypeId {
    TypeId::of::<u8>()
}

/// What the host needs to know of a function parameter.
#[derive(Clone, Debug)]
pub struct Parameter<V> {
    /// The argument's type. Always required.
    pub arg_type: TypeId,
    /// Accept an argument of any type, without checking its `TypeId`.
    pub any_type: bool,
    /// Where `any_type` is set, traits that the argument must implement.
    pub implements: Option<Vec<InterplugRequest>>,
    /// Allow the function to change the argument. Only for parameters with
    /// no default value and without `allow_multiple`.
    pub mutable: bool,
    /// Forbid setting the parameter by position.
    pub keyword_only: bool,
    /// The keyword by which the parameter can be set, if any.
    pub keyword: Option<String>,
    /// The value of an optional keyword parameter that was not set.
    pub default_value: Option<V>,
    /// Allow several arguments for this parameter; they are passed grouped
    /// at the parameter's position.
    pub allow_multiple: bool,
    /// The most arguments a multiple parameter takes; 0 means unlimited.
    pub max_amount: usize,
}

/// A keyword argument, as passed to a function that does not check its
/// arguments.
#[derive(Debug)]
pub struct Kwarg<V> {
    /// The keyword
    pub keyword: String,
    /// The argument's value
    pub value: V,
}

/// A callable that calls nothing: it always fails with
/// `NotImplementedError`.
#[derive(Copy, Clone, Debug)]
pub struct EmptyCallable;

/// The message of the error that an `EmptyCallable` returns.
pub open spec fn not_implemented_message() -> Seq<char> {
    "Called function is not implemented"@
}

impl EmptyCallable {
    /// Calls nothing, whatever the arguments, and reports that the called
    /// function is not implemented.
    pub fn call<A, R>(&mut self, _args: &Vec<A>) -> (r: Result<R, DuskError>)
        ensures
            r matches Err(DuskError::NotImplementedError(m)) && m@ == not_implemented_message(),
    {
        Err(DuskError::NotImplementedError("Called function is not implemented".to_owned()))
    }
}

/// The definition of a trait function: what is known of it before it is
/// implemented or imported.
#[derive(Clone, Debug)]
pub struct TraitFunctionDefinition<V> {
    /// The function's name
    pub name: String,
    /// The function's place in the vector of a trait implementation's
    /// functions; the same for the same function across releases.
    pub fn_trait_id: u64,
    /// The function's parameters
    pub parameters: Vec<Parameter<V>>,
    /// The type of the value the function returns
    pub return_type: TypeId,
    /// Hand the arguments over as they are, unchecked; keyword arguments
    /// then come as `Kwarg`s.
    pub no_check_args: bool,
}

/// A function that a plugin provides.
#[derive(Clone, Debug)]
pub struct Function<C, V> {
    /// The function's name
    pub name: String,
    /// The callable used to call the function
    pub callable: C,
    /// The function's place in the plugin's function list; the same for the
    /// same function across releases.
    pub fn_id: usize,
    /// The function's parameters
    pub parameters: Vec<Parameter<V>>,
    /// The type of the value the function returns
    pub return_type: TypeId,
    /// Hand the arguments over as they are, unchecked; keyword arguments
    /// then come as `Kwarg`s.
    pub no_check_args: bool,
    /// The optional requests that must be fulfilled for the function to be
    /// available.
    pub dependencies: Vec<InterplugRequest>,
}

/// A trait function together with its number in the trait.
#[derive(Clone, Debug)]
pub struct TraitFunction<C, V> {
    /// The function's number in the trait
    pub fn_trait_id: u64,
    /// The underlying function
    pub function: Function<C, V>,
}

/// A trait: its name and the definitions of its functions.
#[derive(Clone, Debug)]
pub struct TraitDefinition<V> {
    /// The trait's name
    pub name: String,
    /// The method definitions
    pub methods: Vec<TraitFunctionDefinition<V>>,
}

/// An implementation of a trait: the trait's name and the implementing
/// functions.
#[derive(Clone, Debug)]
pub struct TraitImplementation<C, V> {
    /// The trait's name, with the full path in the plugin it comes from
    pub name: String,
    /// The implementing methods
    pub methods: Vec<TraitFunction<C, V>>,
}

/// A type that a plugin defines or imports.
#[derive(Clone, Debug)]
pub struct Type<C, V> {
    /// The type's name
    pub name: String,
    /// The type's place in the plugin's type list (not its native
    /// `TypeId`)
    pub tp_id: usize,
    /// Functions that can be called on a value of the type
    pub methods: Vec<Function<C, V>>,
    /// Functions that give the type's fields: each takes a value of the
    /// type and returns the field
    pub fields: Vec<Function<C, V>>,
    /// The traits the type implements
    pub trait_implementations: Vec<TraitImplementation<C, V>>,
    /// The type's native `TypeId`
    pub native_id: TypeId,
}

/// A module of a plugin, with its types, functions, submodules, trait
/// definitions and constants.
#[derive(Debug)]
pub struct Module<C, V> {
    /// The module's name
    pub name: String,
    /// The types of the module
    pub types: Vec<Type<C, V>>,
    /// The functions of the module, apart from those that give type fields
    /// and constants
    pub functions: Vec<Function<C, V>>,
    /// The submodules
    pub submodules: Vec<Module<C, V>>,
    /// The traits the module defines
    pub trait_definitions: Vec<TraitDefinition<V>>,
    /// Functions that give the module's constants
    pub constants: Vec<Function<C, V>>,
}

/// Each element of `b` could be the result of cloning the element of `a`
/// at the same position.
pub open spec fn all_cloned<T: Clone>(a: Seq<T>, b: Seq<T>) -> bool {
    &&& a.len() == b.len()
    &&& forall|i: int| 0 <= i < a.len() ==> cloned::<T>(#[trigger] a[i], b[i])
}

/// `b` is a copy of module `a`: the same name, clones of its types,
/// functions, trait definitions and constants, and copies of its
/// submodules, each list in the same order.
pub open spec fn module_copy<C: Clone, V: Clone>(a: Module<C, V>, b: Module<C, V>) -> bool
    decreases a,
{
    &&& b.name == a.name
    &&& all_cloned(a.types@, b.types@)
    &&& all_cloned(a.functions@, b.functions@)
    &&& all_cloned(a.trait_definitions@, b.trait_definitions@)
    &&& all_cloned(a.constants@, b.constants@)
    &&& {
        proof {
            assert(decreases_to!(a => a.submodules));
        }
        module_copies(a.submodules@, b.submodules@)
    }
}

/// `b` is a list of copies of the modules of `a`, in the same order.
pub open spec fn module_copies<C: Clone, V: Clone>(a: Seq<Module<C, V>>, b: Seq<Module<C, V>>) -> bool
    decreases a,
{
    &&& a.len() == b.len()
    &&& a.len() > 0 ==> {
        proof {
            assert(decreases_to!(a => a[a.len() - 1]));
            assert(decreases_to!(a => a.subrange(0, a.len() - 1)));
        }
        module_copies(a.drop_last(), b.drop_last()) && module_copy(a.last(), b.last())
    }
}

/// Lists of module copies are copies element by element.
pub proof fn lemma_module_copies_elementwise<C: Clone, V: Clone>(
    a: Seq<Module<C, V>>,
    b: Seq<Module<C, V>>,
)
    requires
        module_copies(a, b),
    ensures
        a.len() == b.len(),
        forall|i: int| 0 <= i < a.len() ==> module_copy(#[trigger] a[i], b[i]),
    decreases a.len(),
{
    if a.len() > 0 {
        lemma_module_copies_elementwise(a.drop_last(), b.drop_last());
        assert forall|i: int| 0 <= i < a.len() implies module_copy(#[trigger] a[i], b[i]) by {
            if i < a.len() - 1 {
                assert(a.drop_last()[i] == a[i]);
                assert(b.drop_last()[i] == b[i]);
            }
        }
    }
}

/// A copy of a module has the module's name, and for each of its types,
/// functions, trait definitions, constants and submodules, as many
/// elements, in order, each a clone (for submodules, a copy) of the
/// element at the same position.
pub proof fn lemma_copy_keeps_module<C: Clone, V: Clone>(a: Module<C, V>, b: Module<C, V>)
    requires
        module_copy(a, b),
    ensures
        b.name == a.name,
        b.types@.len() == a.types@.len(),
        forall|i: int| 0 <= i < a.types@.len() ==> cloned(#[trigger] a.types@[i], b.types@[i]),
        b.functions@.len() == a.functions@.len(),
        forall|i: int|
            0 <= i < a.functions@.len() ==> cloned(#[trigger] a.functions@[i], b.functions@[i]),
        b.trait_definitions@.len() == a.trait_definitions@.len(),
        forall|i: int|
            0 <= i < a.trait_definitions@.len() ==> cloned(
                #[trigger] a.trait_definitions@[i],
                b.trait_definitions@[i],
            ),
        b.constants@.len() == a.constants@.len(),
        forall|i: int|
            0 <= i < a.constants@.len() ==> cloned(#[trigger] a.constants@[i], b.constants@[i]),
        b.submodules@.len() == a.submodules@.len(),
        forall|i: int|
            0 <= i < a.submodules@.len() ==> module_copy(#[trigger] a.submodules@[i], b.submodules@[i]),
{
    lemma_module_copies_elementwise(a.submodules@, b.submodules@);
}

/// Copies a list of modules, element by element.
fn clone_modules<C: Clone, V: Clone>(modules: &Vec<Module<C, V>>) -> (r: Vec<Module<C, V>>)
    ensures
        module_copies(modules@, r@),
    decreases modules,
{
    let mut r: Vec<Module<C, V>> = Vec::new();
    let mut i: usize = 0;
    assert(modules@.take(0) =~= Seq::<Module<C, V>>::empty());
    while i < modules.len()
        invariant
            i <= modules.len(),
            module_copies(modules@.take(i as int), r@),
        decreases modules.len() - i,
    {
        proof {
            vstd::std_specs::vec::axiom_vec_index_decreases(*modules, i as int);
        }
        let c = modules[i].clone();
        let ghost before = r@;
        r.push(c);
        proof {
            assert(modules@.take(i + 1).drop_last() =~= modules@.take(i as int));
            assert(r@.drop_last() =~= before);
        }
        i = i + 1;
    }
    assert(modules@.take(i as int) =~= modules@);
    r
}

impl<C: Clone, V: Clone> Clone for Module<C, V> {
    fn clone(&self) -> (r: Self)
        ensures
            module_copy(*self, r),
        decreases self,
    {
        Module {
            name: self.name.clone(),
            types: self.types.clone(),
            functions: self.functions.clone(),
            submodules: clone_modules(&self.submodules),
            trait_definitions: self.trait_definitions.clone(),
            constants: self.constants.clone(),
        }
    }
}

/// A plugin that provides nothing.
#[derive(Copy, Clone, Debug)]
pub struct EmptyFreight;

impl EmptyFreight {
    /// The modules of a plugin that provides nothing: none.
    pub fn get_module_list<C, V>(&mut self) -> (r: Vec<Module<C, V>>)
        ensures
            r@.len() == 0,
    {
        Vec::new()
    }
}

/// A parameter as it is by default: a positional, single, immutable
/// parameter of a checked type, without keyword or default value.
pub open spec fn is_default_parameter<V>(p: Parameter<V>) -> bool {
    &&& !p.any_type
    &&& p.implements is None
    &&& !p.mutable
    &&& !p.keyword_only
    &&& p.keyword is None
    &&& p.default_value is None
    &&& !p.allow_multiple
    &&& p.max_amount == 0
}

/// A function as it is by default: unnamed, with ID 0, no parameters, no
/// dependencies, checked arguments, and a callable that `C::default()`
/// gives.
pub open spec fn is_default_function<C: Default, V>(f: Function<C, V>) -> bool {
    &&& f.name@ == Seq::<char>::empty()
    &&& call_ensures(C::default, (), f.callable)
    &&& f.fn_id == 0
    &&& f.parameters@.len() == 0
    &&& !f.no_check_args
    &&& f.dependencies@.len() == 0
}

/// A type as it is by default: unnamed, with ID 0, and without methods,
/// fields or trait implementations.
pub open spec fn is_default_type<C, V>(t: Type<C, V>) -> bool {
    &&& t.name@ == Seq::<char>::empty()
    &&& t.tp_id == 0
    &&& t.methods@.len() == 0
    &&& t.fields@.len() == 0
    &&& t.trait_implementations@.len() == 0
}

impl<V> Default for Parameter<V> {
    fn default() -> (r: Parameter<V>)
        ensures
            is_default_parameter(r),
    {
        Parameter {
            arg_type: type_id_of_u8(),
            any_type: false,
            implements: None,
            mutable: false,
            keyword_only: false,
            keyword: None,
            default_value: None,
            allow_multiple: false,
            max_amount: 0,
        }
    }
}

impl<V> Default for TraitFunctionDefinition<V> {
    fn default() -> (r: TraitFunctionDefinition<V>)
        ensures
            r.name@ == Seq::<char>::empty(),
            r.fn_trait_id == 0,
            r.parameters@.len() == 0,
            !r.no_check_args,
    {
        TraitFunctionDefinition {
            name: String::new(),
            fn_trait_id: 0,
            parameters: Vec::new(),
            return_type: type_id_of_u8(),
            no_check_args: false,
        }
    }
}

impl<C: Default, V> Default for Function<C, V> {
    fn default() -> (r: Function<C, V>)
        ensures
            is_default_function(r),
    {
        Function {
            name: String::new(),
            callable: C::default(),
            fn_id: 0,
            parameters: Vec::new(),
            return_type: type_id_of_u8(),
            no_check_args: false,
            dependencies: Vec::new(),
        }
    }
}

impl<C: Default, V> Default for TraitFunction<C, V> {
    fn default() -> (r: TraitFunction<C, V>)
        ensures
            r.fn_trait_id == 0,
            is_default_function(r.function),
    {
        TraitFunction { fn_trait_id: 0, function: Function::default() }
    }
}

impl<C, V> Default for Type<C, V> {
    fn default() -> (r: Type<C, V>)
        ensures
            is_default_type(r),
    {
        Type {
            name: String::new(),
            tp_id: 0,
            methods: Vec::new(),
            fields: Vec::new(),
            trait_implementations: Vec::new(),
            native_id: type_id_of_u8(),
        }
    }
}

} // verus!
