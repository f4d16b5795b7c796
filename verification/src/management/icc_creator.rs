//! Requests to the creator of image descriptions from ICC profiles.

use vstd::prelude::*;
use vstd::string::StringExecFns;

use crate::management::builder::{
    icc_contents, DescriptionError, IccFileReader, ImageDescriptionIccBuilder,
};
use crate::management::description::ImageDescription;
use crate::management::image_description::{Cause, ImageDescriptionData, NewDescription};
use crate::management::state::{
    build_outcome, ColorManagementState, ImageDescriptionIds, KnownModel,
};
use crate::management::weak::WeakHandle;
use crate::post_error::PostError;

verus! {

/// Errors of the creator of image descriptions from ICC profiles.
#[derive(Debug, Clone, Copy, PartialEq, Eq, Structural)]
pub enum IccCreatorError {
    IncompleteSet,
    AlreadySet,
    BadSize,
}

/// The largest profile that is read, in bytes.
pub const MAX_ICC_SIZE: u32 = 4194304;

/// The profile that a creator holds. One that has been used is `None`.
pub open spec fn held_profile(builder: Option<ImageDescriptionIccBuilder>) -> Option<
    Option<Seq<u8>>,
> {
    match builder {
        None => None,
        Some(b) => Some(b@),
    }
}

/// A creator holds the profile that its builder has, until it is used.
pub proof fn creators_hold_their_profile(builder: Option<ImageDescriptionIccBuilder>)
    ensures
        held_profile(builder) is Some <==> builder is Some,
        builder matches Some(b) ==> held_profile(builder) == Some(b@),
{
}

/// Why a creator does not even look at a file of `length` bytes, where it does not.
pub open spec fn file_refusal(used: bool, length: u32) -> Option<PostError<IccCreatorError>> {
    if used {
        Some(PostError { error: IccCreatorError::AlreadySet, message: "Creator was already used" })
    } else if length > MAX_ICC_SIZE {
        Some(PostError { error: IccCreatorError::BadSize, message: "Size larger than 4MiB" })
    } else {
        None
    }
}

/// A file is looked at exactly where the creator has not been used and at most four mebibytes are
/// asked for. That a creator was used counts first.
pub proof fn files_up_to_four_mebibytes_are_read(used: bool, length: u32)
    ensures
        file_refusal(used, length) is None <==> !used && length <= 4 * 1024 * 1024,
        used ==> (file_refusal(used, length) matches Some(posted) && posted.error
            == IccCreatorError::AlreadySet && posted.message == "Creator was already used"),
        !used && length > 4 * 1024 * 1024 ==> (file_refusal(used, length) matches Some(posted)
            && posted.error == IccCreatorError::BadSize && posted.message
            == "Size larger than 4MiB"),
{
}

/// Why a creator does not even look at a file of `length` bytes, where it does not.
pub fn check_icc_file(builder: &Option<ImageDescriptionIccBuilder>, length: u32) -> (posted: Option<
    PostError<IccCreatorError>,
>)
    ensures
        posted == file_refusal(*builder is None, length),
{
    if builder.is_none() {
        return Some(
            PostError { error: IccCreatorError::AlreadySet, message: "Creator was already used" },
        );
    }
    if length > MAX_ICC_SIZE {
        return Some(
            PostError { error: IccCreatorError::BadSize, message: "Size larger than 4MiB" },
        );
    }
    None
}

/// How a request to read a profile ends.
#[derive(Debug)]
pub enum SetIccFileOutcome {
    Accepted,
    PostError(PostError<IccCreatorError>),
    /// Post that the file descriptor is bad, with this message.
    PostBadFd(String),
}

/// Takes over the profile that was read from a file of `length` bytes, or the words that say why
/// it could not be read.
pub fn set_icc_file(
    builder: &mut Option<ImageDescriptionIccBuilder>,
    length: u32,
    file: Result<IccFileReader, String>,
) -> (outcome: SetIccFileOutcome)
    ensures
        match file_refusal(*old(builder) is None, length) {
            Some(posted) => {
                &&& outcome == SetIccFileOutcome::PostError(posted)
                &&& *final(builder) == *old(builder)
            },
            None => match file {
                Ok(reader) => {
                    &&& held_profile(*final(builder)) == Some(Some(reader.data_spec()))
                    &&& outcome == if held_profile(*old(builder)) == Some(None::<Seq<u8>>) {
                        SetIccFileOutcome::Accepted
                    } else {
                        SetIccFileOutcome::PostError(
                            PostError {
                                error: IccCreatorError::AlreadySet,
                                message: "ICC file was already set",
                            },
                        )
                    }
                },
                Err(reason) => {
                    &&& outcome matches SetIccFileOutcome::PostBadFd(message) && message@
                        == "Failed to read ICC file: "@ + reason@
                    &&& held_profile(*final(builder)) == held_profile(*old(builder))
                },
            },
        },
{
    if length > MAX_ICC_SIZE && builder.is_some() {
        return SetIccFileOutcome::PostError(
            PostError { error: IccCreatorError::BadSize, message: "Size larger than 4MiB" },
        );
    }
    match builder {
        None => SetIccFileOutcome::PostError(
            PostError { error: IccCreatorError::AlreadySet, message: "Creator was already used" },
        ),
        Some(data) => match data.with_file(file) {
            Ok(true) => SetIccFileOutcome::PostError(
                PostError {
                    error: IccCreatorError::AlreadySet,
                    message: "ICC file was already set",
                },
            ),
            Ok(false) => SetIccFileOutcome::Accepted,
            Err(reason) => {
                let mut message: String = "Failed to read ICC file: ".to_owned();
                message.append(reason.as_str());
                SetIccFileOutcome::PostBadFd(message)
            },
        },
    }
}

impl<W: WeakHandle> ColorManagementState<W> where W::UserData: Default {
    /// Uses a creator up, and gives the image description that it creates, or the error to post.
    /// Whether the profile is any good is for the compositor to say: see [`icc_verified`].
    pub fn create_icc(
        &mut self,
        ids: &mut ImageDescriptionIds,
        builder: &mut Option<ImageDescriptionIccBuilder>,
    ) -> (created: Result<ImageDescription<W::UserData>, PostError<IccCreatorError>>)
        requires
            old(self).wf(),
        ensures
            final(self).wf(),
            final(self).support() == old(self).support(),
            *final(builder) is None,
            match held_profile(*old(builder)) {
                None => {
                    &&& created == Err::<ImageDescription<W::UserData>, _>(
                        PostError {
                            error: IccCreatorError::AlreadySet,
                            message: "Creator was already used",
                        },
                    )
                    &&& final(self).known() == old(self).known()
                    &&& final(ids)@ == old(ids)@
                },
                Some(profile) => exists|built: Result<ImageDescription<W::UserData>, DescriptionError>|
                    {
                        &&& #[trigger] build_outcome(
                            old(self).known(),
                            old(ids)@,
                            icc_contents(profile),
                            final(self).known(),
                            final(ids)@,
                            built,
                        )
                        &&& created == match built {
                            Ok(desc) => Ok(desc),
                            Err(error) => Err(
                                PostError {
                                    error: IccCreatorError::IncompleteSet,
                                    message: error.message_spec(),
                                },
                            ),
                        }
                    },
            },
    {
        let data = match builder.take() {
            Some(data) => data,
            None => return Err(
                PostError {
                    error: IccCreatorError::AlreadySet,
                    message: "Creator was already used",
                },
            ),
        };
        match self.build_description_internal(ids, data.try_into()) {
            Ok(desc) => Ok(desc),
            Err(error) => Err(
                PostError { error: IccCreatorError::IncompleteSet, message: error.message() },
            ),
        }
    }
}

/// The image description object to make, once the compositor has said whether the profile is
/// valid.
pub fn icc_verified<U>(info: ImageDescription<U>, valid: bool) -> (new: NewDescription<U>)
    ensures
        new == if valid {
            NewDescription::Ready(ImageDescriptionData { get_information: false, info })
        } else {
            NewDescription::Failed {
                cause: Cause::Unsupported,
                message: "ICC file failed to parse",
            }
        },
{
    if valid {
        NewDescription::Ready(ImageDescriptionData { get_information: false, info })
    } else {
        NewDescription::Failed { cause: Cause::Unsupported, message: "ICC file failed to parse" }
    }
}

/// A complete creator makes a description that holds the profile, byte for byte.
pub proof fn icc_description_holds_the_profile<W: WeakHandle>(
    known: Seq<KnownModel<W>>,
    next: u64,
    profile: Seq<u8>,
    known_after: Seq<KnownModel<W>>,
    next_after: u64,
    built: Result<ImageDescription<W::UserData>, DescriptionError>,
) where W::UserData: Default
    requires
        build_outcome(
            known,
            next,
            icc_contents(Some(profile)),
            known_after,
            next_after,
            built,
        ),
    ensures
        built matches Ok(desc) && desc.contents_spec()
            == crate::management::description::ContentsModel::Icc(profile),
{
}

} // verus!
