use dusk_api::{
    get_function_list, get_type_list, Function, Module, TraitFunction, TraitImplementation, Type,
};

fn func(name: &str, id: usize, marker: u32) -> Function<u32, ()> {
    Function { name: name.to_string(), callable: marker, fn_id: id, ..Function::default() }
}

fn module(
    name: &str,
    types: Vec<Type<u32, ()>>,
    functions: Vec<Function<u32, ()>>,
    submodules: Vec<Module<u32, ()>>,
    constants: Vec<Function<u32, ()>>,
) -> Module<u32, ()> {
    Module {
        name: name.to_string(),
        types,
        functions,
        submodules,
        trait_definitions: vec![],
        constants,
    }
}

fn vec3() -> Type<u32, ()> {
    Type {
        name: "Vec3".to_string(),
        tp_id: 1,
        methods: vec![func("len", 5, 50)],
        fields: vec![func("x", 2, 20)],
        trait_implementations: vec![TraitImplementation {
            name: "Show".to_string(),
            methods: vec![TraitFunction { fn_trait_id: 0, function: func("show", 6, 60) }],
        }],
        native_id: std::any::TypeId::of::<u64>(),
    }
}

fn mat() -> Type<u32, ()> {
    Type { name: "Mat".to_string(), tp_id: 0, ..Type::default() }
}

fn plugin() -> Vec<Module<u32, ()>> {
    let math = module("math", vec![mat()], vec![func("mul", 1, 10)], vec![], vec![]);
    vec![module("core", vec![vec3()], vec![func("add", 0, 1)], vec![math], vec![func("PI", 3, 30)])]
}

fn names(list: &Vec<Function<u32, ()>>) -> Vec<String> {
    list.iter().map(|f| f.name.clone()).collect()
}

#[test]
fn functions_are_listed_by_id_under_qualified_names() {
    let list = get_function_list(plugin(), vec![func("+", 8, 80)]);
    assert_eq!(
        names(&list),
        vec![
            "core::add",
            "core::math::mul",
            "@core::Vec3::x",
            "@core::PI",
            "",
            "core::Vec3::len",
            "core::Vec3::show",
            "",
            "+",
        ]
    );
    for (i, f) in list.iter().enumerate() {
        if !f.name.is_empty() {
            assert_eq!(f.fn_id, i);
        }
    }
    let markers: Vec<u32> = list.iter().map(|f| f.callable).collect();
    assert_eq!(markers, vec![1, 10, 20, 30, 0, 50, 60, 0, 80]);
}

#[test]
fn gaps_hold_default_functions() {
    let list = get_function_list(vec![module("m", vec![], vec![func("f", 3, 7)], vec![], vec![])], vec![]);
    assert_eq!(list.len(), 4);
    for f in &list[0..3] {
        assert_eq!(f.name, "");
        assert_eq!(f.fn_id, 0);
        assert_eq!(f.callable, 0);
    }
    assert_eq!(list[3].name, "m::f");
    assert_eq!(list[3].callable, 7);
}

#[test]
fn later_function_with_same_id_stands() {
    let a = module("a", vec![], vec![func("f", 0, 1)], vec![], vec![]);
    let b = module("b", vec![], vec![func("g", 0, 2)], vec![], vec![]);
    let list = get_function_list(vec![a, b], vec![]);
    assert_eq!(list.len(), 1);
    assert_eq!(list[0].name, "b::g");
    assert_eq!(list[0].callable, 2);
}

#[test]
fn submodule_functions_come_before_the_module_own() {
    let inner = module("inner", vec![], vec![func("f", 0, 1)], vec![], vec![]);
    let outer = module("outer", vec![], vec![func("g", 0, 2)], vec![inner], vec![]);
    let list = get_function_list(vec![outer], vec![]);
    assert_eq!(names(&list), vec!["outer::g"]);
}

#[test]
fn deep_submodules_are_qualified() {
    let c = module("c", vec![], vec![func("f", 1, 1)], vec![], vec![func("K", 0, 2)]);
    let b = module("b", vec![], vec![], vec![c], vec![]);
    let a = module("a", vec![], vec![], vec![b], vec![]);
    let list = get_function_list(vec![a], vec![]);
    assert_eq!(names(&list), vec!["@a::b::c::K", "a::b::c::f"]);
}

#[test]
fn nothing_listed_gives_empty_lists() {
    let list = get_function_list(Vec::<Module<u32, ()>>::new(), vec![]);
    assert!(list.is_empty());
    let types = get_type_list(Vec::<Module<u32, ()>>::new());
    assert!(types.is_empty());
}

#[test]
fn types_are_listed_by_id_under_qualified_names() {
    let types = get_type_list(plugin());
    let names: Vec<String> = types.iter().map(|t| t.name.clone()).collect();
    assert_eq!(names, vec!["core::math::Mat", "core::Vec3"]);
    assert_eq!(types[1].tp_id, 1);
    assert_eq!(types[1].methods.len(), 1);
    assert_eq!(types[1].methods[0].name, "len");
    assert_eq!(types[1].native_id, std::any::TypeId::of::<u64>());
}

#[test]
fn type_gaps_hold_default_types() {
    let t = Type { name: "T".to_string(), tp_id: 2, ..Type::<u32, ()>::default() };
    let types = get_type_list(vec![module("m", vec![t], vec![], vec![], vec![])]);
    assert_eq!(types.len(), 3);
    assert_eq!(types[0].name, "");
    assert_eq!(types[1].tp_id, 0);
    assert_eq!(types[2].name, "m::T");
}

#[test]
fn later_type_with_same_id_stands() {
    let t1 = Type { name: "A".to_string(), tp_id: 0, ..Type::<u32, ()>::default() };
    let t2 = Type { name: "B".to_string(), tp_id: 0, ..Type::<u32, ()>::default() };
    let types = get_type_list(vec![module("m", vec![t1, t2], vec![], vec![], vec![])]);
    assert_eq!(types.len(), 1);
    assert_eq!(types[0].name, "m::B");
}
