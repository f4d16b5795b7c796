//! Outputs, and the image descriptions of what they show.

use vstd::prelude::*;

use crate::instances::{remove_instance_id, without, InstanceId};
use crate::management::description::ImageDescription;
use crate::management::image_description::{Cause, ImageDescriptionData, NewDescription};

verus! {

/// What is kept with an output that color management knows.
#[derive(Debug)]
pub struct ColorManagementOutput<U> {
    description: ImageDescription<U>,
    known_instances: Vec<InstanceId>,
}

/// The value of a [`ColorManagementOutput`].
pub struct OutputModel<U> {
    pub description: ImageDescription<U>,
    pub instances: Seq<InstanceId>,
}

impl<U> View for ColorManagementOutput<U> {
    type V = OutputModel<U>;

    closed spec fn view(&self) -> OutputModel<U> {
        OutputModel { description: self.description, instances: self.known_instances@ }
    }
}

impl<U> ColorManagementOutput<U> {
    /// An output with the given description, and no objects.
    pub fn new(description: ImageDescription<U>) -> (output: Self)
        ensures
            output@ == (OutputModel { description, instances: Seq::<InstanceId>::empty() }),
    {
        ColorManagementOutput { description, known_instances: Vec::new() }
    }

    /// Adds an object.
    pub fn add_instance(&mut self, instance: InstanceId)
        ensures
            final(self)@ == (OutputModel {
                instances: old(self)@.instances.push(instance),
                ..old(self)@
            }),
    {
        self.known_instances.push(instance);
    }

    /// Removes an object.
    pub fn remove_instance(&mut self, instance: InstanceId)
        ensures
            final(self)@ == (OutputModel {
                instances: without(old(self)@.instances, instance),
                ..old(self)@
            }),
    {
        remove_instance_id(&mut self.known_instances, instance);
    }
}

/// The description of an output, where color management knows the output.
pub fn get_output_description<U>(output: Option<&ColorManagementOutput<U>>) -> (description: Option<
    ImageDescription<U>,
>)
    ensures
        description == match output {
            Some(data) => Some(data@.description),
            None => None,
        },
{
    match output {
        Some(data) => Some(data.description.clone()),
        None => None,
    }
}

/// Requests to the color management object of an output.
#[derive(Debug, Clone, Copy, PartialEq, Eq, Structural)]
pub enum OutputRequest {
    GetImageDescription,
    /// Any other request.
    Other,
}

/// The image description object to make for a request to the color management object of an
/// output, if any. `output` is what is kept with the output, unless the output is gone.
pub fn output_request<U>(
    output: Option<&ColorManagementOutput<U>>,
    request: OutputRequest,
) -> (new: Option<NewDescription<U>>)
    ensures
        new == match (request, output) {
            (OutputRequest::Other, _) => None,
            (OutputRequest::GetImageDescription, Some(data)) => Some(
                NewDescription::Ready(
                    ImageDescriptionData { get_information: true, info: data@.description },
                ),
            ),
            (OutputRequest::GetImageDescription, None) => Some(
                NewDescription::Failed {
                    cause: Cause::NoOutput,
                    message: "Output was destroyed",
                },
            ),
        },
{
    match request {
        OutputRequest::Other => None,
        OutputRequest::GetImageDescription => Some(
            match output {
                Some(data) => NewDescription::Ready(
                    ImageDescriptionData { get_information: true, info: data.description.clone() },
                ),
                None => NewDescription::Failed {
                    cause: Cause::NoOutput,
                    message: "Output was destroyed",
                },
            },
        ),
    }
}

} // verus!
