//! The staging plan: the ordered filesystem steps that materialize the
//! module directory from a compiled configuration.
//!
//! The plan is a pure function of the configuration and the build-output
//! root: first remove the staging directory, then copy each asset in
//! manifest order, then write the rendered descriptor file. Every step
//! after the clean writes only beneath the staging directory, so running
//! the stager twice on an unchanged configuration and unchanged sources
//! produces the same staging directory both times: the second clean
//! removes exactly what the first run wrote, and the copies and the
//! descriptor are rewritten from the same inputs.

use vstd::prelude::*;

use crate::config::Asset;
use crate::config::Config;
use crate::config::ManifestFields;
use crate::errors::ConfigError;
use crate::paths::lemma_join_prefix;
use crate::paths::path_components;
use crate::paths::spec_staging_dir;
use crate::paths::staging_dir;
use crate::paths::starts_with;

verus! {

/// Materializes a compiled configuration. Implementations touch the
/// filesystem, so nothing is promised of the effect.
pub trait Deploy {
    fn deploy(&self, config: &Config) -> Result<(), ConfigError>;
}

/// One filesystem step of the staging plan.
#[derive(Debug, PartialEq)]
pub enum DeployStep {
    /// Remove this directory recursively if it exists.
    RemoveDir { path: String },
    /// Copy the file or directory at `source` to `dest`, creating
    /// missing parents of `dest` first; fail if `source` does not exist.
    CopyAsset { source: String, dest: String },
    /// Write `content` to this file, overwriting it if present.
    WriteFile { path: String, content: String },
}

/// The mathematical image of one staging step.
pub enum StepModel {
    RemoveDir { path: Seq<char> },
    CopyAsset { source: Seq<char>, dest: Seq<char> },
    WriteFile { path: Seq<char>, content: Seq<char> },
}

impl View for DeployStep {
    type V = StepModel;

    open spec fn view(&self) -> StepModel {
        match self {
            DeployStep::RemoveDir { path } => StepModel::RemoveDir { path: path@ },
            DeployStep::CopyAsset { source, dest } => StepModel::CopyAsset {
                source: source@,
                dest: dest@,
            },
            DeployStep::WriteFile { path, content } => StepModel::WriteFile {
                path: path@,
                content: content@,
            },
        }
    }
}

impl DeepView for DeployStep {
    type V = StepModel;

    open spec fn deep_view(&self) -> StepModel {
        self.view()
    }
}

/// The path a step writes to or removes.
pub open spec fn step_target(s: StepModel) -> Seq<char> {
    match s {
        StepModel::RemoveDir { path } => path,
        StepModel::CopyAsset { source, dest } => dest,
        StepModel::WriteFile { path, content } => path,
    }
}

/// The descriptor file location under a build-output root.
pub open spec fn spec_module_prop_path(target_root: Seq<char>) -> Seq<char> {
    spec_staging_dir(target_root) + "/module.prop"@
}

/// The staging plan for a configuration: clean the staging directory,
/// copy each asset in manifest order, write the descriptor file.
pub open spec fn spec_plan(c: Config, target_root: Seq<char>) -> Seq<StepModel> {
    seq![StepModel::RemoveDir { path: spec_staging_dir(target_root) }] + Seq::new(
        c.assets@.len(),
        |i: int|
            StepModel::CopyAsset { source: c.assets@[i].source@, dest: c.assets@[i].dest@ },
    ) + seq![
        StepModel::WriteFile {
            path: spec_module_prop_path(target_root),
            content: c.module_prop.spec_render(),
        },
    ]
}

/// Writes the descriptor file location under a build-output root.
pub fn module_prop_path(target_root: &str) -> (r: String)
    ensures
        r@ == spec_module_prop_path(target_root@),
{
    let mut acc = staging_dir(target_root);
    acc.append("/module.prop");
    acc
}

/// Computes the staging plan of a configuration: the steps, in order,
/// that the stager performs.
#[verifier::loop_isolation(false)]
pub fn deploy_plan(config: &Config, target_root: &str) -> (r: Vec<DeployStep>)
    ensures
        r.deep_view() == spec_plan(*config, target_root@),
{
    let mut steps: Vec<DeployStep> = Vec::new();
    steps.push(DeployStep::RemoveDir { path: staging_dir(target_root) });
    let mut i: usize = 0;
    while i < config.assets.len()
        invariant
            i <= config.assets.len(),
            steps.deep_view() =~= seq![
                StepModel::RemoveDir { path: spec_staging_dir(target_root@) },
            ] + Seq::new(
                i as nat,
                |j: int|
                    StepModel::CopyAsset {
                        source: config.assets@[j].source@,
                        dest: config.assets@[j].dest@,
                    },
            ),
        decreases config.assets.len() - i,
    {
        let ghost old_steps = steps.deep_view();
        let asset = &config.assets[i];
        steps.push(
            DeployStep::CopyAsset { source: asset.source.clone(), dest: asset.dest.clone() },
        );
        proof {
            assert(steps.deep_view() =~= old_steps + seq![
                StepModel::CopyAsset {
                    source: config.assets@[i as int].source@,
                    dest: config.assets@[i as int].dest@,
                },
            ]);
        }
        i = i + 1;
    }
    let ghost copy_steps = steps.deep_view();
    steps.push(
        DeployStep::WriteFile {
            path: module_prop_path(target_root),
            content: config.module_prop.render(),
        },
    );
    proof {
        assert(steps.deep_view() =~= copy_steps + seq![
            StepModel::WriteFile {
                path: spec_module_prop_path(target_root@),
                content: config.module_prop.spec_render(),
            },
        ]);
        assert(steps.deep_view() =~= spec_plan(*config, target_root@));
    }
    steps
}

/// The staging plan has one step per asset between the clean and the
/// descriptor write, begins by removing the staging directory, copies
/// the assets in manifest order, and ends by writing the rendered
/// descriptor.
pub proof fn lemma_plan_shape(c: Config, target_root: Seq<char>)
    ensures
        spec_plan(c, target_root).len() == c.assets@.len() + 2,
        spec_plan(c, target_root)[0] == (StepModel::RemoveDir {
            path: spec_staging_dir(target_root),
        }),
        forall|i: int|
            0 <= i < c.assets@.len() ==> spec_plan(c, target_root)[i + 1] == (StepModel::CopyAsset {
                source: c.assets@[i].source@,
                dest: c.assets@[i].dest@,
            }),
        spec_plan(c, target_root).last() == (StepModel::WriteFile {
            path: spec_module_prop_path(target_root),
            content: c.module_prop.spec_render(),
        }),
{
}

/// A resolved destination always lies under the staging directory,
/// whatever the declared path and the build-output root.
pub proof fn lemma_resolve_dest_confined(dest: Seq<char>, target_root: Seq<char>)
    ensures
        starts_with(Asset::spec_resolve_dest(dest, target_root), spec_staging_dir(target_root)),
{
    lemma_join_prefix(spec_staging_dir(target_root), path_components(dest));
}

/// Every step after the clean writes only beneath the staging directory
/// that the clean removed, provided each asset's destination lies there —
/// which holds of every compiled configuration.
pub proof fn lemma_plan_confined(c: Config, target_root: Seq<char>)
    requires
        forall|i: int|
            0 <= i < c.assets@.len() ==> starts_with(
                (#[trigger] c.assets@[i]).dest@,
                spec_staging_dir(target_root),
            ),
    ensures
        forall|j: int|
            1 <= j < spec_plan(c, target_root).len() ==> starts_with(
                step_target(#[trigger] spec_plan(c, target_root)[j]),
                spec_staging_dir(target_root),
            ),
{
    let plan = spec_plan(c, target_root);
    let staging = spec_staging_dir(target_root);
    assert forall|j: int| 1 <= j < plan.len() implies starts_with(
        step_target(plan[j]),
        staging,
    ) by {
        if j < plan.len() - 1 {
            assert(plan[j] == (StepModel::CopyAsset {
                source: c.assets@[j - 1].source@,
                dest: c.assets@[j - 1].dest@,
            }));
            assert(starts_with(c.assets@[j - 1].dest@, staging));
        } else {
            assert(plan[j] == (StepModel::WriteFile {
                path: spec_module_prop_path(target_root),
                content: c.module_prop.spec_render(),
            }));
            assert(spec_module_prop_path(target_root).subrange(0, staging.len() as int)
                =~= staging);
        }
    }
}

/// The idempotence of staging, over a compiled configuration: the plan
/// is a function of the configuration and the build-output root alone,
/// its first step removes the staging directory, and every later step
/// writes only beneath it. A second run on an unchanged configuration
/// and unchanged sources therefore first erases everything the first run
/// wrote and then recreates it from the same inputs, leaving an
/// identical staging directory.
pub proof fn lemma_stage_idempotent(
    c: Config,
    fields: ManifestFields,
    project: Seq<char>,
    target_root: Seq<char>,
)
    requires
        Config::spec_built(c, fields, project, target_root),
    ensures
        spec_plan(c, target_root)[0] == (StepModel::RemoveDir {
            path: spec_staging_dir(target_root),
        }),
        forall|j: int|
            1 <= j < spec_plan(c, target_root).len() ==> starts_with(
                step_target(#[trigger] spec_plan(c, target_root)[j]),
                spec_staging_dir(target_root),
            ),
{
    assert forall|i: int| 0 <= i < c.assets@.len() implies starts_with(
        (#[trigger] c.assets@[i]).dest@,
        spec_staging_dir(target_root),
    ) by {
        lemma_resolve_dest_confined(fields.assets@[i].dest@, target_root);
    }
    lemma_plan_confined(c, target_root);
}

} // verus!
