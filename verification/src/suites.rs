//! The suites of functions that a host hands to its plugins.

use crate::registry::share;
use crate::types::Error;
use std::sync::Arc;
use vstd::prelude::*;

verus! {

/// The types of the suites, which are tables of functions of the host.
pub trait SuiteTypes {
    type ImageEffect;

    type Property;

    type Parameter;

    type Memory;

    type MultiThread;

    type Message;

    type MessageV2;

    type Progress;

    type ProgressV2;

    type TimeLine;

    type ParametricParameter;

    type ImageEffectOpenGLRender;
}

/// The suites of one host. The later versions and the two last suites are those
/// that a host may lack.
pub struct Suites<T: SuiteTypes> {
    image_effect: Arc<T::ImageEffect>,
    property: Arc<T::Property>,
    parameter: Arc<T::Parameter>,
    memory: Arc<T::Memory>,
    multi_thread: Arc<T::MultiThread>,
    message: Arc<T::Message>,
    message_v2: Option<Arc<T::MessageV2>>,
    progress: Arc<T::Progress>,
    progress_v2: Option<Arc<T::ProgressV2>>,
    time_line: Arc<T::TimeLine>,
    parametric_parameter: Option<Arc<T::ParametricParameter>>,
    image_effect_opengl_render: Option<Arc<T::ImageEffectOpenGLRender>>,
}

/// The suites as they were handed over.
pub struct SuitesView<T: SuiteTypes> {
    pub image_effect: T::ImageEffect,
    pub property: T::Property,
    pub parameter: T::Parameter,
    pub memory: T::Memory,
    pub multi_thread: T::MultiThread,
    pub message: T::Message,
    pub message_v2: Option<T::MessageV2>,
    pub progress: T::Progress,
    pub progress_v2: Option<T::ProgressV2>,
    pub time_line: T::TimeLine,
    pub parametric_parameter: Option<T::ParametricParameter>,
    pub image_effect_opengl_render: Option<T::ImageEffectOpenGLRender>,
}

/// What an optional handle points to.
pub open spec fn pointed_to<T>(shared: Option<Arc<T>>) -> Option<T> {
    match shared {
        Some(shared) => Some(*shared),
        None => None,
    }
}

impl<T: SuiteTypes> View for Suites<T> {
    type V = SuitesView<T>;

    closed spec fn view(&self) -> SuitesView<T> {
        SuitesView {
            image_effect: *self.image_effect,
            property: *self.property,
            parameter: *self.parameter,
            memory: *self.memory,
            multi_thread: *self.multi_thread,
            message: *self.message,
            message_v2: pointed_to(self.message_v2),
            progress: *self.progress,
            progress_v2: pointed_to(self.progress_v2),
            time_line: *self.time_line,
            parametric_parameter: pointed_to(self.parametric_parameter),
            image_effect_opengl_render: pointed_to(self.image_effect_opengl_render),
        }
    }
}

fn share_optional<T>(shared: &Option<Arc<T>>) -> (handle: Option<Arc<T>>)
    ensures
        handle == *shared,
{
    match shared {
        Some(shared) => Some(share(shared)),
        None => None,
    }
}

fn shared_optional<T>(value: Option<T>) -> (handle: Option<Arc<T>>)
    ensures
        pointed_to(handle) == value,
{
    match value {
        Some(value) => Some(Arc::new(value)),
        None => None,
    }
}

impl<T: SuiteTypes> Clone for Suites<T> {
    fn clone(&self) -> (suites: Self)
        ensures
            suites == *self,
    {
        Suites {
            image_effect: share(&self.image_effect),
            property: share(&self.property),
            parameter: share(&self.parameter),
            memory: share(&self.memory),
            multi_thread: share(&self.multi_thread),
            message: share(&self.message),
            message_v2: share_optional(&self.message_v2),
            progress: share(&self.progress),
            progress_v2: share_optional(&self.progress_v2),
            time_line: share(&self.time_line),
            parametric_parameter: share_optional(&self.parametric_parameter),
            image_effect_opengl_render: share_optional(&self.image_effect_opengl_render),
        }
    }
}

impl<T: SuiteTypes> Suites<T> {
    pub fn new(
        image_effect: T::ImageEffect,
        property: T::Property,
        parameter: T::Parameter,
        memory: T::Memory,
        multi_thread: T::MultiThread,
        message: T::Message,
        message_v2: Option<T::MessageV2>,
        progress: T::Progress,
        progress_v2: Option<T::ProgressV2>,
        time_line: T::TimeLine,
        parametric_parameter: Option<T::ParametricParameter>,
        image_effect_opengl_render: Option<T::ImageEffectOpenGLRender>,
    ) -> (suites: Self)
        ensures
            suites@ == (SuitesView::<T> {
                image_effect,
                property,
                parameter,
                memory,
                multi_thread,
                message,
                message_v2,
                progress,
                progress_v2,
                time_line,
                parametric_parameter,
                image_effect_opengl_render,
            }),
    {
        Suites {
            image_effect: Arc::new(image_effect),
            property: Arc::new(property),
            parameter: Arc::new(parameter),
            memory: Arc::new(memory),
            multi_thread: Arc::new(multi_thread),
            message: Arc::new(message),
            message_v2: shared_optional(message_v2),
            progress: Arc::new(progress),
            progress_v2: shared_optional(progress_v2),
            time_line: Arc::new(time_line),
            parametric_parameter: shared_optional(parametric_parameter),
            image_effect_opengl_render: shared_optional(image_effect_opengl_render),
        }
    }

    pub fn image_effect(&self) -> (suite: Arc<T::ImageEffect>)
        ensures
            *suite == self@.image_effect,
    {
        share(&self.image_effect)
    }

    pub fn image_effect_opengl_render(&self) -> (suite: Option<Arc<T::ImageEffectOpenGLRender>>)
        ensures
            pointed_to(suite) == self@.image_effect_opengl_render,
    {
        share_optional(&self.image_effect_opengl_render)
    }

    pub fn property(&self) -> (suite: Arc<T::Property>)
        ensures
            *suite == self@.property,
    {
        share(&self.property)
    }

    pub fn parameter(&self) -> (suite: Arc<T::Parameter>)
        ensures
            *suite == self@.parameter,
    {
        share(&self.parameter)
    }

    pub fn multi_thread(&self) -> (suite: Arc<T::MultiThread>)
        ensures
            *suite == self@.multi_thread,
    {
        share(&self.multi_thread)
    }
}

/// Calls a function of a suite, unless the host left it out.
pub fn suite_call<A, R, E>(function: Option<impl FnOnce(A) -> R>, arguments: A) -> (result: Result<
    R,
    Error<E>,
>)
    requires
        function matches Some(function) ==> call_requires(function, (arguments,)),
    ensures
        match function {
            None => result == Err::<R, Error<E>>(Error::SuiteNotInitialized),
            Some(function) => result matches Ok(value) && call_ensures(
                function,
                (arguments,),
                value,
            ),
        },
{
    match function {
        None => Err(Error::SuiteNotInitialized),
        Some(function) => Ok(function(arguments)),
    }
}

} // verus!
