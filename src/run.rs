//! One build of a source identity, as a machine that names the next outside
//! step and reads what that step produced.
use vstd::prelude::*;
use crate::digest::{get_binary_hash, normalized_digest};
use crate::nesting::manifest_within_bounds;
use crate::params::VerifyParams;
use crate::pipeline::{
    artifact_file, artifact_name_from_manifest, check_sub_path, has_parent_ref,
    toml_package_name, VerifyError,
};

verus! {

/// The outside step a run is waiting on.
#[derive(PartialEq, Eq, Structural, Clone, Copy, Debug)]
pub enum Phase {
    Cloning,
    CheckingOut,
    ReadingManifest,
    MakingImage,
    Compiling,
    ReadingArtifact,
    Finished,
}

/// What the last outside step gave back.
pub enum BuildEvent {
    Succeeded,
    Failed,
    Manifest(String),
    Image(String),
    Artifact(Vec<u8>),
}

/// What to do next.
pub enum BuildAction {
    Clone,
    Checkout,
    ReadManifest,
    MakeImage,
    /// Compile inside the image with this identifier.
    Compile(String),
    /// Read the artifact file of this name from the output directory.
    ReadArtifact(String),
    /// The run is over, with the build's digest or the reason it stopped.
    Done(Result<String, VerifyError>),
}

pub struct BuildRun {
    pub phase: Phase,
    /// The artifact file name, once the manifest has given it.
    pub artifact: String,
}

pub open spec fn done_with(a: BuildAction, e: VerifyError) -> bool {
    a is Done && a->Done_0 == Err::<String, VerifyError>(e)
}

impl BuildRun {
    /// Starts a run. A sub-path that could leave the clone ends it at once,
    /// before any outside step.
    pub fn start(params: &VerifyParams) -> (r: (BuildRun, BuildAction))
        ensures
            has_parent_ref(params.path@) ==> r.0.phase == Phase::Finished && done_with(
                r.1,
                VerifyError::InvalidInput,
            ),
            !has_parent_ref(params.path@) ==> r.0.phase == Phase::Cloning && r.1 is Clone,
    {
        if check_sub_path(params).is_err() {
            (BuildRun { phase: Phase::Finished, artifact: String::new() }, BuildAction::Done(Err(VerifyError::InvalidInput)))
        } else {
            (BuildRun { phase: Phase::Cloning, artifact: String::new() }, BuildAction::Clone)
        }
    }

    fn stop(&mut self, e: VerifyError) -> (r: BuildAction)
        ensures
            final(self).phase == Phase::Finished,
            done_with(r, e),
    {
        self.phase = Phase::Finished;
        BuildAction::Done(Err(e))
    }

    /// Takes the outcome of the step the run waited on and names the next one.
    /// A failed step ends the run with that step's error, and so does a manifest
    /// too deeply nested to parse safely; an event that does not
    /// belong to the step ends it as an internal error.
    pub fn advance(&mut self, event: BuildEvent) -> (r: BuildAction)
        ensures
            match (old(self).phase, event) {
                (Phase::Cloning, BuildEvent::Succeeded) => final(self).phase == Phase::CheckingOut
                    && r is Checkout,
                (Phase::Cloning, BuildEvent::Failed) => final(self).phase == Phase::Finished
                    && done_with(r, VerifyError::SourceUnavailable),
                (Phase::CheckingOut, BuildEvent::Succeeded) => final(self).phase
                    == Phase::ReadingManifest && r is ReadManifest,
                (Phase::CheckingOut, BuildEvent::Failed) => final(self).phase == Phase::Finished
                    && done_with(r, VerifyError::SourceUnavailable),
                (Phase::ReadingManifest, BuildEvent::Manifest(text)) => if !manifest_within_bounds(
                    text@,
                ) {
                    final(self).phase == Phase::Finished && done_with(r, VerifyError::ManifestInvalid)
                } else {
                    match toml_package_name(text@) {
                    Some(name) => final(self).phase == Phase::MakingImage && final(self).artifact@
                        == artifact_file(name) && r is MakeImage,
                    None => final(self).phase == Phase::Finished && done_with(
                        r,
                        VerifyError::ManifestInvalid,
                    ),
                    }
                },
                (Phase::ReadingManifest, BuildEvent::Failed) => final(self).phase
                    == Phase::Finished && done_with(r, VerifyError::ManifestInvalid),
                (Phase::MakingImage, BuildEvent::Image(id)) => final(self).phase == Phase::Compiling
                    && final(self).artifact@ == old(self).artifact@ && r is Compile
                    && r->Compile_0@ == id@,
                (Phase::MakingImage, BuildEvent::Failed) => final(self).phase == Phase::Finished
                    && done_with(r, VerifyError::BuildEnvironmentFailure),
                (Phase::Compiling, BuildEvent::Succeeded) => final(self).phase
                    == Phase::ReadingArtifact && r is ReadArtifact && r->ReadArtifact_0@ == old(
                    self,
                ).artifact@,
                (Phase::Compiling, BuildEvent::Failed) => final(self).phase == Phase::Finished
                    && done_with(r, VerifyError::BuildFailure),
                (Phase::ReadingArtifact, BuildEvent::Artifact(bytes)) => final(self).phase
                    == Phase::Finished && r is Done && r->Done_0 is Ok && r->Done_0->Ok_0@
                    == normalized_digest(bytes@),
                (Phase::ReadingArtifact, BuildEvent::Failed) => final(self).phase
                    == Phase::Finished && done_with(r, VerifyError::BuildFailure),
                _ => final(self).phase == Phase::Finished && done_with(r, VerifyError::Internal),
            },
    {
        match (self.phase, event) {
            (Phase::Cloning, BuildEvent::Succeeded) => {
                self.phase = Phase::CheckingOut;
                BuildAction::Checkout
            },
            (Phase::Cloning, BuildEvent::Failed) => self.stop(VerifyError::SourceUnavailable),
            (Phase::CheckingOut, BuildEvent::Succeeded) => {
                self.phase = Phase::ReadingManifest;
                BuildAction::ReadManifest
            },
            (Phase::CheckingOut, BuildEvent::Failed) => self.stop(VerifyError::SourceUnavailable),
            (Phase::ReadingManifest, BuildEvent::Manifest(text)) => {
                match artifact_name_from_manifest(text.as_str()) {
                    Ok(name) => {
                        self.phase = Phase::MakingImage;
                        self.artifact = name;
                        BuildAction::MakeImage
                    },
                    Err(e) => self.stop(e),
                }
            },
            (Phase::ReadingManifest, BuildEvent::Failed) => self.stop(VerifyError::ManifestInvalid),
            (Phase::MakingImage, BuildEvent::Image(id)) => {
                self.phase = Phase::Compiling;
                BuildAction::Compile(id)
            },
            (Phase::MakingImage, BuildEvent::Failed) => self.stop(VerifyError::BuildEnvironmentFailure),
            (Phase::Compiling, BuildEvent::Succeeded) => {
                self.phase = Phase::ReadingArtifact;
                BuildAction::ReadArtifact(self.artifact.clone())
            },
            (Phase::Compiling, BuildEvent::Failed) => self.stop(VerifyError::BuildFailure),
            (Phase::ReadingArtifact, BuildEvent::Artifact(bytes)) => {
                self.phase = Phase::Finished;
                BuildAction::Done(Ok(get_binary_hash(bytes)))
            },
            (Phase::ReadingArtifact, BuildEvent::Failed) => self.stop(VerifyError::BuildFailure),
            _ => self.stop(VerifyError::Internal),
        }
    }
}

} // verus!
