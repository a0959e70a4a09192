//! Feature flags: everything that differs between the student and the
//! teacher editions is switched here.

use vstd::prelude::*;
use crate::clock::Timestamp;
use crate::text::same_text;

verus! {

/// The kind of a license.
#[derive(Debug, Clone, Copy, PartialEq, Eq, Structural)]
pub enum LicenseType {
    /// The free student edition.
    Student,
    /// A single teacher.
    TeacherIndividual,
    /// A school or another institution.
    TeacherInstitution,
    /// A self-hosted installation.
    Enterprise,
}

/// A license and how far it reaches.
#[derive(Debug, Clone, Copy, PartialEq, Eq, Structural)]
pub struct License {
    pub license_type: LicenseType,
    pub valid_until: Option<Timestamp>,
    pub seats: Option<u32>,
}

/// Which parts of the product are switched on.
#[derive(Debug, Clone, Copy, PartialEq, Eq, Structural)]
pub struct FeatureFlags {
    /// Teacher mode; needs a license.
    pub teacher_mode: bool,
    pub cloud_sync: bool,
    pub classrooms: bool,
    pub cloud_grading: bool,
    pub analytics: bool,
    pub exam_mode: bool,
    pub plagiarism_detection: bool,
    /// The marketplace can always be browsed.
    pub marketplace: bool,
    pub license: Option<License>,
}

/// The flags of the student edition: the marketplace and nothing else, under
/// a student license without an end and without seats.
pub open spec fn student_flags() -> FeatureFlags {
    FeatureFlags {
        teacher_mode: false,
        cloud_sync: false,
        classrooms: false,
        cloud_grading: false,
        analytics: false,
        exam_mode: false,
        plagiarism_detection: false,
        marketplace: true,
        license: Some(
            License { license_type: LicenseType::Student, valid_until: None, seats: None },
        ),
    }
}

/// Whether a feature is one that works only with the cloud.
pub open spec fn is_cloud_feature(feature: Seq<char>) -> bool {
    feature == "cloud_sync"@ || feature == "cloud_grading"@ || feature == "analytics"@ || feature
        == "classrooms"@
}

/// The flags after a license was taken in. A student license switches
/// nothing on. A single teacher gets teacher mode, cloud sync, classrooms,
/// cloud grading and analytics; an institution or an enterprise gets exam
/// mode and plagiarism detection as well. Nothing is ever switched off.
pub open spec fn activated(flags: FeatureFlags, license: License) -> FeatureFlags {
    match license.license_type {
        LicenseType::Student => FeatureFlags { license: Some(license), ..flags },
        LicenseType::TeacherIndividual => FeatureFlags {
            teacher_mode: true,
            cloud_sync: true,
            classrooms: true,
            cloud_grading: true,
            analytics: true,
            license: Some(license),
            ..flags
        },
        LicenseType::TeacherInstitution | LicenseType::Enterprise => FeatureFlags {
            teacher_mode: true,
            cloud_sync: true,
            classrooms: true,
            cloud_grading: true,
            analytics: true,
            exam_mode: true,
            plagiarism_detection: true,
            license: Some(license),
            ..flags
        },
    }
}

impl Default for FeatureFlags {
    /// The flags of the student edition.
    fn default() -> (flags: Self)
        ensures
            flags == student_flags(),
    {
        FeatureFlags {
            teacher_mode: false,
            cloud_sync: false,
            classrooms: false,
            cloud_grading: false,
            analytics: false,
            exam_mode: false,
            plagiarism_detection: false,
            marketplace: true,
            license: Some(
                License { license_type: LicenseType::Student, valid_until: None, seats: None },
            ),
        }
    }
}

impl FeatureFlags {
    /// The flags to work with, given what was stored: the stored ones where
    /// there are any that can be read, those of the student edition where
    /// not.
    pub fn load(stored: Option<FeatureFlags>) -> (flags: Self)
        ensures
            flags == (match stored {
                Some(f) => f,
                None => student_flags(),
            }),
    {
        match stored {
            Some(flags) => flags,
            None => FeatureFlags::default(),
        }
    }

    /// Whether a feature, named as its flag is, works only with the cloud.
    pub fn requires_cloud(&self, feature: &str) -> (cloud: bool)
        ensures
            cloud == is_cloud_feature(feature@),
    {
        same_text(feature, "cloud_sync") || same_text(feature, "cloud_grading") || same_text(
            feature,
            "analytics",
        ) || same_text(feature, "classrooms")
    }

    /// Takes in a license and switches on what it pays for.
    pub fn activate_teacher(&mut self, license: License)
        ensures
            *final(self) == activated(*old(self), license),
    {
        self.license = Some(license);
        match license.license_type {
            LicenseType::Student => {},
            LicenseType::TeacherIndividual => {
                self.teacher_mode = true;
                self.cloud_sync = true;
                self.classrooms = true;
                self.cloud_grading = true;
                self.analytics = true;
            },
            LicenseType::TeacherInstitution | LicenseType::Enterprise => {
                self.teacher_mode = true;
                self.cloud_sync = true;
                self.classrooms = true;
                self.cloud_grading = true;
                self.analytics = true;
                self.exam_mode = true;
                self.plagiarism_detection = true;
            },
        }
    }
}

/// What a license switched on stays on under every later license.
pub proof fn activation_only_adds(flags: FeatureFlags, license: License)
    ensures
        flags.teacher_mode ==> activated(flags, license).teacher_mode,
        flags.cloud_sync ==> activated(flags, license).cloud_sync,
        flags.classrooms ==> activated(flags, license).classrooms,
        flags.cloud_grading ==> activated(flags, license).cloud_grading,
        flags.analytics ==> activated(flags, license).analytics,
        flags.exam_mode ==> activated(flags, license).exam_mode,
        flags.plagiarism_detection ==> activated(flags, license).plagiarism_detection,
        activated(flags, license).marketplace == flags.marketplace,
{
}

} // verus!
