//! Optional transforms applied to hosts, groups and defaults when they are read.
use vstd::prelude::*;
use crate::json::{json_get, opt_deref, JsonValue};
use super::models::{Defaults, DerefTarget, Group, Host};

verus! {

/// Options handed to a transform function: a free-form JSON document.
#[derive(Debug)]
pub struct TransformFunctionOptions(pub JsonValue);

impl TransformFunctionOptions {
    /// Wraps a JSON value.
    pub fn new(options: JsonValue) -> (res: Self)
        ensures
            res.0 == options,
    {
        TransformFunctionOptions(options)
    }

    /// The wrapped JSON value.
    pub fn value(&self) -> (res: &JsonValue)
        ensures
            *res == self.0,
    {
        &self.0
    }

    /// The value under `key` when the options are an object.
    pub fn get(&self, key: &str) -> (res: Option<&JsonValue>)
        ensures
            opt_deref(res) == json_get(self.0, key@),
    {
        self.0.get(key)
    }
}

impl DerefTarget for TransformFunctionOptions {
    type Target = JsonValue;
}

impl Clone for TransformFunctionOptions {
    fn clone(&self) -> (res: Self)
        ensures
            res.0 == self.0,
    {
        TransformFunctionOptions(self.0.deep_clone())
    }
}

/// A rewrite of hosts, groups and defaults, applied when the inventory hands
/// them out. Each method defaults to a plain copy.
pub trait Transform {
    /// The host as the inventory hands it out.
    fn transform_host(&self, host: &Host, options: Option<&TransformFunctionOptions>) -> (res: Host)
        default_ensures
            res@ == host@,
    {
        host.clone()
    }

    /// The group as the inventory hands it out.
    fn transform_group(&self, group: &Group, options: Option<&TransformFunctionOptions>) -> (res: Group)
        default_ensures
            res@ == group@,
    {
        group.clone()
    }

    /// The defaults as the inventory hands them out.
    fn transform_defaults(&self, defaults: &Defaults, options: Option<&TransformFunctionOptions>) -> (res: Defaults)
        default_ensures
            res@ == defaults@,
    {
        defaults.clone()
    }
}

/// The transform that changes nothing: every method copies its input.
pub struct NoTransform;

impl Transform for NoTransform {

}


/// A transform of hosts given by a function; groups and defaults are copied.
pub struct HostOnlyTransform<F: Fn(&Host, Option<&TransformFunctionOptions>) -> Host> {
    func: F,
}

impl<F: Fn(&Host, Option<&TransformFunctionOptions>) -> Host> HostOnlyTransform<F> {
    /// The function that transforms hosts.
    pub closed spec fn func(&self) -> F {
        self.func
    }

    /// The function may be called on every host and options.
    #[verifier::type_invariant]
    spec fn callable(self) -> bool {
        forall|host: &Host, options: Option<&TransformFunctionOptions>|
            call_requires(self.func, (host, options))
    }
}

impl<F: Fn(&Host, Option<&TransformFunctionOptions>) -> Host> Transform for HostOnlyTransform<F> {
    fn transform_host(&self, host: &Host, options: Option<&TransformFunctionOptions>) -> (res: Host)
        ensures
            call_ensures(self.func(), (host, options), res),
    {
        proof {
            use_type_invariant(self);
        }
        (self.func)(host, options)
    }
}

/// A transform, applied to hosts, groups and defaults on access.
pub struct TransformFunction<T: Transform>(pub T);

impl<F: Fn(&Host, Option<&TransformFunctionOptions>) -> Host> TransformFunction<HostOnlyTransform<F>> {
    /// A transform of hosts by `func`; groups and defaults are copied.
    pub fn new(func: F) -> (res: Self)
        requires
            forall|host: &Host, options: Option<&TransformFunctionOptions>|
                call_requires(func, (host, options)),
        ensures
            res.0.func() == func,
    {
        TransformFunction(HostOnlyTransform { func })
    }
}

impl<T: Transform> TransformFunction<T> {
    /// A transform given by a full implementation of [`Transform`].
    pub fn new_full(transform: T) -> (res: Self)
        ensures
            res.0 == transform,
    {
        TransformFunction(transform)
    }

    /// Applies the transform to a host.
    pub fn transform_host(&self, host: &Host, options: Option<&TransformFunctionOptions>) -> (res: Host)
        ensures
            call_ensures(T::transform_host, (&self.0, host, options), res),
    {
        self.0.transform_host(host, options)
    }

    /// Applies the transform to a group.
    pub fn transform_group(&self, group: &Group, options: Option<&TransformFunctionOptions>) -> (res: Group)
        ensures
            call_ensures(T::transform_group, (&self.0, group, options), res),
    {
        self.0.transform_group(group, options)
    }

    /// Applies the transform to the defaults.
    pub fn transform_defaults(&self, defaults: &Defaults, options: Option<&TransformFunctionOptions>) -> (res: Defaults)
        ensures
            call_ensures(T::transform_defaults, (&self.0, defaults, options), res),
    {
        self.0.transform_defaults(defaults, options)
    }
}

} // verus!
