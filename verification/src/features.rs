//! The fixed set of build-time capability flags.
//!
//! Each flag selects one optional subsystem of the external project.  The
//! set is chosen once, when the build is configured, and is immutable for
//! the duration of that build.

use vstd::prelude::*;

verus! {

/// One boolean per optional subsystem of the external project.
///
/// A flag being `true` asks the external build to compile that subsystem in;
/// the feature mapper translates the whole set into explicit configuration
/// options, so that no option is ever left to an external default.
#[derive(Clone, Copy, Debug, PartialEq, Eq, Structural)]
pub struct FeatureSet {
    pub anim: bool,
    pub asserts: bool,
    pub audio: bool,
    pub bigint: bool,
    pub brotli: bool,
    pub channels: bool,
    pub crdts: bool,
    pub debug: bool,
    pub fileops: bool,
    pub imaging: bool,
    pub json: bool,
    pub os: bool,
    pub reflection: bool,
    pub snappy: bool,
    pub sqlite: bool,
    pub structs: bool,
    pub ml: bool,
    pub crypto: bool,
    pub csv: bool,
    pub fs: bool,
    pub http: bool,
    pub network: bool,
    pub pdf: bool,
    pub ssh: bool,
    pub svg: bool,
    pub random: bool,
    pub markdown: bool,
    pub localshell: bool,
    pub py: bool,
    pub tracy: bool,
}

impl FeatureSet {
    /// The selection with every optional subsystem switched off.
    pub fn none() -> (r: FeatureSet)
        ensures
            r == (FeatureSet {
                anim: false,
                asserts: false,
                audio: false,
                bigint: false,
                brotli: false,
                channels: false,
                crdts: false,
                debug: false,
                fileops: false,
                imaging: false,
                json: false,
                os: false,
                reflection: false,
                snappy: false,
                sqlite: false,
                structs: false,
                ml: false,
                crypto: false,
                csv: false,
                fs: false,
                http: false,
                network: false,
                pdf: false,
                ssh: false,
                svg: false,
                random: false,
                markdown: false,
                localshell: false,
                py: false,
                tracy: false,
            }),
    {
        FeatureSet {
            anim: false,
            asserts: false,
            audio: false,
            bigint: false,
            brotli: false,
            channels: false,
            crdts: false,
            debug: false,
            fileops: false,
            imaging: false,
            json: false,
            os: false,
            reflection: false,
            snappy: false,
            sqlite: false,
            structs: false,
            ml: false,
            crypto: false,
            csv: false,
            fs: false,
            http: false,
            network: false,
            pdf: false,
            ssh: false,
            svg: false,
            random: false,
            markdown: false,
            localshell: false,
            py: false,
            tracy: false,
        }
    }
}

} // verus!
