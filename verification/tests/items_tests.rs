use dusk_api::{
    check_compatibility, DuskError, EmptyCallable, EmptyFreight, Function, InterplugRequest,
    Module, Parameter, TraitFunction, TraitFunctionDefinition, Type, Version,
};

#[test]
fn empty_callable_is_not_implemented() {
    let mut c = EmptyCallable;
    let args: Vec<u8> = vec![1, 2, 3];
    let r: Result<u32, DuskError> = c.call(&args);
    match r {
        Err(DuskError::NotImplementedError(m)) => {
            assert_eq!(m, "Called function is not implemented")
        }
        _ => panic!("expected NotImplementedError"),
    }
}

#[test]
fn empty_freight_has_no_modules() {
    let mut f = EmptyFreight;
    let ms: Vec<Module<u32, ()>> = f.get_module_list();
    assert!(ms.is_empty());
}

#[test]
fn compatible_declaration_is_accepted() {
    let rustc = "1.70.0".to_string();
    let api = "0.1.0".to_string();
    assert!(check_compatibility(&rustc, &api, &rustc.clone(), &api.clone()).is_ok());
}

#[test]
fn compiler_mismatch_is_refused_first() {
    let r = check_compatibility(
        &"1.69.0".to_string(),
        &"0.0.9".to_string(),
        &"1.70.0".to_string(),
        &"0.1.0".to_string(),
    );
    match r {
        Err(DuskError::ImportError(m)) => assert_eq!(m, "Compiler version mismatch"),
        _ => panic!("expected ImportError"),
    }
}

#[test]
fn api_mismatch_is_refused() {
    let r = check_compatibility(
        &"1.70.0".to_string(),
        &"0.0.9".to_string(),
        &"1.70.0".to_string(),
        &"0.1.0".to_string(),
    );
    match r {
        Err(DuskError::ImportError(m)) => assert_eq!(m, "Dusk API version mismatch"),
        _ => panic!("expected ImportError"),
    }
}

#[test]
fn default_parameter() {
    let p: Parameter<u8> = Parameter::default();
    assert!(!p.any_type && !p.mutable && !p.keyword_only && !p.allow_multiple);
    assert!(p.implements.is_none() && p.keyword.is_none() && p.default_value.is_none());
    assert_eq!(p.max_amount, 0);
    assert_eq!(p.arg_type, std::any::TypeId::of::<u8>());
}

#[test]
fn default_function_and_definitions() {
    let f: Function<u32, ()> = Function::default();
    assert_eq!(f.name, "");
    assert_eq!(f.fn_id, 0);
    assert_eq!(f.callable, 0);
    assert!(f.parameters.is_empty() && f.dependencies.is_empty() && !f.no_check_args);
    assert_eq!(f.return_type, std::any::TypeId::of::<u8>());

    let d: TraitFunctionDefinition<()> = TraitFunctionDefinition::default();
    assert_eq!(d.name, "");
    assert_eq!(d.fn_trait_id, 0);
    assert!(d.parameters.is_empty() && !d.no_check_args);

    let t: TraitFunction<u32, ()> = TraitFunction::default();
    assert_eq!(t.fn_trait_id, 0);
    assert_eq!(t.function.fn_id, 0);

    let ty: Type<u32, ()> = Type::default();
    assert_eq!(ty.name, "");
    assert_eq!(ty.tp_id, 0);
    assert!(ty.methods.is_empty() && ty.fields.is_empty() && ty.trait_implementations.is_empty());
    assert_eq!(ty.native_id, std::any::TypeId::of::<u8>());
}

#[test]
fn requests_clone() {
    let r = InterplugRequest::RequestEither {
        requests: vec![
            InterplugRequest::PlugRequest {
                plugin: "a".to_string(),
                fn_ids: vec![1, 2],
                version: Version { major: 1, minor: 0, release: 0, build: 0 },
            },
            InterplugRequest::RequestOptional {
                request: Box::new(InterplugRequest::TraitRequestAll {
                    plugin: "b".to_string(),
                    trait_name: "T".to_string(),
                    version: Version::default(),
                }),
            },
        ],
    };
    let c = r.clone();
    assert_eq!(format!("{:?}", r), format!("{:?}", c));
}

#[test]
fn modules_clone() {
    let m: Module<u32, ()> = Module {
        name: "top".to_string(),
        types: vec![],
        functions: vec![],
        submodules: vec![Module {
            name: "sub".to_string(),
            types: vec![],
            functions: vec![],
            submodules: vec![],
            trait_definitions: vec![],
            constants: vec![],
        }],
        trait_definitions: vec![],
        constants: vec![],
    };
    let c = m.clone();
    assert_eq!(format!("{:?}", m), format!("{:?}", c));
}

#[test]
fn cloned_descriptions_keep_their_type_ids() {
    let p: Parameter<u8> = Parameter {
        arg_type: std::any::TypeId::of::<String>(),
        keyword: Some("k".to_string()),
        default_value: Some(3),
        ..Parameter::default()
    };
    let c = p.clone();
    assert_eq!(c.arg_type, std::any::TypeId::of::<String>());
    assert_eq!(c.keyword, Some("k".to_string()));
    assert_eq!(c.default_value, Some(3));
    let t: Type<u32, ()> = Type { native_id: std::any::TypeId::of::<i64>(), ..Type::default() };
    assert_eq!(t.clone().native_id, std::any::TypeId::of::<i64>());
}

#[test]
fn cloned_request_keeps_every_field() {
    let r = InterplugRequest::RequestCrucial {
        request: Box::new(InterplugRequest::TraitRequest {
            plugin: "p".to_string(),
            trait_name: "Show".to_string(),
            fn_ids: vec![4, 7],
            version: Version { major: 2, minor: 1, release: 0, build: 3 },
        }),
    };
    match r.clone() {
        InterplugRequest::RequestCrucial { request } => match *request {
            InterplugRequest::TraitRequest { plugin, trait_name, fn_ids, version } => {
                assert_eq!(plugin, "p");
                assert_eq!(trait_name, "Show");
                assert_eq!(fn_ids, vec![4, 7]);
                assert!(version == Version { major: 2, minor: 1, release: 0, build: 3 });
            }
            _ => panic!("wrong inner variant"),
        },
        _ => panic!("wrong variant"),
    }
}

#[test]
fn cloned_module_keeps_names_and_lists() {
    let f: Function<u32, ()> = Function { name: "f".to_string(), callable: 9, fn_id: 2, ..Function::default() };
    let sub: Module<u32, ()> = Module {
        name: "sub".to_string(),
        types: vec![],
        functions: vec![f.clone()],
        submodules: vec![],
        trait_definitions: vec![],
        constants: vec![],
    };
    let m: Module<u32, ()> = Module {
        name: "top".to_string(),
        types: vec![Type { name: "T".to_string(), tp_id: 1, ..Type::default() }],
        functions: vec![],
        submodules: vec![sub],
        trait_definitions: vec![],
        constants: vec![f],
    };
    let c = m.clone();
    assert_eq!(c.name, "top");
    assert_eq!(c.types.len(), 1);
    assert_eq!(c.types[0].name, "T");
    assert_eq!(c.constants[0].callable, 9);
    assert_eq!(c.submodules.len(), 1);
    assert_eq!(c.submodules[0].name, "sub");
    assert_eq!(c.submodules[0].functions[0].fn_id, 2);
}
