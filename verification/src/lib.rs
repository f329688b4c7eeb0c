//! Common ground of a plugin system: the descriptions that a plugin
//! exports of its modules, types and functions, the versions it carries,
//! and the rules by which a host lays them out and accepts them.


pub mod error;
pub mod items;
pub mod layout;
pub mod request;
pub mod version;

pub use crate::error::{check_compatibility, DuskError};
pub use crate::error::DuskError::{
    AssertionError, ImportError, IndexError, LoadingError, NotImplementedError, OsError,
    OverflowError, RuntimeError, TypeError, ValueError, ZeroDivisionError,
};
pub use crate::items::{
    EmptyCallable, EmptyFreight, Function, Kwarg, Module, Parameter, TraitDefinition,
    TraitFunction, TraitFunctionDefinition, TraitImplementation, Type,
};
pub use crate::layout::{get_function_list, get_type_list};
pub use crate::request::InterplugRequest;
pub use crate::request::InterplugRequest::{
    PlugRequest, PlugRequestAll, RequestCrucial, RequestEach, RequestEither, RequestOptional,
    TraitRequest, TraitRequestAll,
};
pub use crate::request::Limitation;
pub use crate::version::Version;
