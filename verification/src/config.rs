//! The workflow's settings: what the configuration store holds, and the
//! validated configuration that every operation reads.

use vstd::prelude::*;
use vstd::string::*;
use crate::category::BranchCategory;
use crate::error::{texts, Failure, FlowError};
use crate::text::join2;

verus! {

/// The characters of a setting, or none where the setting is absent.
pub open spec fn setting_text(v: Option<String>) -> Option<Seq<char>> {
    match v {
        Some(s) => Some(s@),
        None => None,
    }
}

/// The characters of a setting as they are shown: an absent setting is shown
/// as the empty string.
pub open spec fn shown(v: Option<String>) -> Seq<char> {
    match v {
        Some(s) => s@,
        None => Seq::empty(),
    }
}

pub open spec fn stable_key_text() -> Seq<char> {
    "workflow.branch.master"@
}

pub open spec fn integration_key_text() -> Seq<char> {
    "workflow.branch.develop"@
}

pub open spec fn version_tag_key_text() -> Seq<char> {
    "workflow.prefix.versiontag"@
}

/// The key under which the stable branch's name is persisted.
pub fn stable_key() -> (r: &'static str)
    ensures
        r@ == stable_key_text(),
{
    "workflow.branch.master"
}

/// The key under which the integration branch's name is persisted.
pub fn integration_key() -> (r: &'static str)
    ensures
        r@ == integration_key_text(),
{
    "workflow.branch.develop"
}

/// The key under which the version-tag prefix is persisted.
pub fn version_tag_key() -> (r: &'static str)
    ensures
        r@ == version_tag_key_text(),
{
    "workflow.prefix.versiontag"
}

/// The workflow settings as the repository's configuration store holds them:
/// each key may be absent.
#[derive(Clone, Debug, PartialEq, Eq)]
pub struct StoredSettings {
    pub stable: Option<String>,
    pub integration: Option<String>,
    pub feature: Option<String>,
    pub release: Option<String>,
    pub hotfix: Option<String>,
    pub bugfix: Option<String>,
    pub support: Option<String>,
    pub version_tag: Option<String>,
}

/// The workflow settings of an initialized repository.
#[derive(Clone, Debug, PartialEq, Eq)]
pub struct WorkflowConfig {
    pub stable: String,
    pub integration: String,
    pub feature: Option<String>,
    pub release: Option<String>,
    pub hotfix: Option<String>,
    pub bugfix: Option<String>,
    pub support: Option<String>,
    pub version_tag: Option<String>,
}

impl StoredSettings {
    /// The stored prefix of a category.
    pub open spec fn prefix(self, category: BranchCategory) -> Option<Seq<char>> {
        match category {
            BranchCategory::Feature => setting_text(self.feature),
            BranchCategory::Release => setting_text(self.release),
            BranchCategory::Hotfix => setting_text(self.hotfix),
            BranchCategory::Bugfix => setting_text(self.bugfix),
            BranchCategory::Support => setting_text(self.support),
        }
    }

    /// The settings name two distinct, non-empty lines of development.
    pub open spec fn names_two_lines(self) -> bool {
        &&& self.stable matches Some(s)
        &&& self.integration matches Some(d)
        &&& s@.len() > 0
        &&& d@.len() > 0
        &&& s@ != d@
    }

    /// What initialization persists: `master` and `develop`, each category's
    /// word followed by a slash, and an empty version-tag prefix.
    pub open spec fn is_standard(self) -> bool {
        &&& setting_text(self.stable) == Some("master"@)
        &&& setting_text(self.integration) == Some("develop"@)
        &&& forall|c: BranchCategory| #[trigger] self.prefix(c) == Some(c.standard_prefix())
        &&& setting_text(self.version_tag) == Some(Seq::<char>::empty())
    }

    /// The settings that initialization persists.
    pub fn standard() -> (r: StoredSettings)
        ensures
            r.is_standard(),
            r.names_two_lines(),
    {
        proof {
            reveal_strlit("master");
            reveal_strlit("develop");
        }
        StoredSettings {
            stable: Some(String::from_str("master")),
            integration: Some(String::from_str("develop")),
            feature: Some(BranchCategory::Feature.default_prefix()),
            release: Some(BranchCategory::Release.default_prefix()),
            hotfix: Some(BranchCategory::Hotfix.default_prefix()),
            bugfix: Some(BranchCategory::Bugfix.default_prefix()),
            support: Some(BranchCategory::Support.default_prefix()),
            version_tag: Some(String::new()),
        }
    }

    /// The lines that report the settings, in the order in which they are
    /// shown.
    pub open spec fn report(self) -> Seq<Seq<char>> {
        seq![
            "Branch name for production releases: "@ + shown(self.stable),
            "Branch name for \"next release\" development: "@ + shown(self.integration),
            "Feature branch prefix: "@ + shown(self.feature),
            "Bugfix branch prefix: "@ + shown(self.bugfix),
            "Release branch prefix: "@ + shown(self.release),
            "Hotfix branch prefix: "@ + shown(self.hotfix),
            "Support branch prefix: "@ + shown(self.support),
            "Version tag prefix: "@ + shown(self.version_tag),
        ]
    }

    /// The lines that report the settings.
    pub fn describe(&self) -> (r: Vec<String>)
        ensures
            texts(r@) == self.report(),
    {
        let mut out: Vec<String> = Vec::new();
        out.push(labelled("Branch name for production releases: ", &self.stable));
        out.push(labelled("Branch name for \"next release\" development: ", &self.integration));
        out.push(labelled("Feature branch prefix: ", &self.feature));
        out.push(labelled("Bugfix branch prefix: ", &self.bugfix));
        out.push(labelled("Release branch prefix: ", &self.release));
        out.push(labelled("Hotfix branch prefix: ", &self.hotfix));
        out.push(labelled("Support branch prefix: ", &self.support));
        out.push(labelled("Version tag prefix: ", &self.version_tag));
        assert(texts(out@) =~= self.report());
        out
    }

    /// The key and value of every setting that is present, in the order in
    /// which initialization persists them.
    pub open spec fn pairs(self) -> Seq<(Seq<char>, Seq<char>)> {
        pair_of(stable_key_text(), self.stable) + pair_of(
            integration_key_text(),
            self.integration,
        ) + pair_of(BranchCategory::Feature.setting_key(), self.feature) + pair_of(
            BranchCategory::Release.setting_key(),
            self.release,
        ) + pair_of(BranchCategory::Hotfix.setting_key(), self.hotfix) + pair_of(
            BranchCategory::Bugfix.setting_key(),
            self.bugfix,
        ) + pair_of(BranchCategory::Support.setting_key(), self.support) + pair_of(
            version_tag_key_text(),
            self.version_tag,
        )
    }

    /// The key and value of every setting that is present.
    pub fn entries(&self) -> (r: Vec<(String, String)>)
        ensures
            pair_texts(r@) == self.pairs(),
    {
        let mut out: Vec<(String, String)> = Vec::new();
        push_pair(&mut out, String::from_str(stable_key()), &self.stable);
        push_pair(&mut out, String::from_str(integration_key()), &self.integration);
        push_pair(&mut out, BranchCategory::Feature.prefix_key(), &self.feature);
        push_pair(&mut out, BranchCategory::Release.prefix_key(), &self.release);
        push_pair(&mut out, BranchCategory::Hotfix.prefix_key(), &self.hotfix);
        push_pair(&mut out, BranchCategory::Bugfix.prefix_key(), &self.bugfix);
        push_pair(&mut out, BranchCategory::Support.prefix_key(), &self.support);
        push_pair(&mut out, String::from_str(version_tag_key()), &self.version_tag);
        out
    }
}

/// The key and value of each entry of a list.
pub open spec fn pair_texts(v: Seq<(String, String)>) -> Seq<(Seq<char>, Seq<char>)> {
    v.map_values(|p: (String, String)| (p.0@, p.1@))
}

/// The one entry of a present setting; nothing for an absent one.
pub open spec fn pair_of(key: Seq<char>, value: Option<String>) -> Seq<(Seq<char>, Seq<char>)> {
    match value {
        Some(v) => seq![(key, v@)],
        None => Seq::empty(),
    }
}

fn push_pair(out: &mut Vec<(String, String)>, key: String, value: &Option<String>)
    ensures
        pair_texts(final(out)@) == pair_texts(old(out)@) + pair_of(key@, *value),
{
    match value {
        Some(v) => {
            out.push((key, v.clone()));
            assert(pair_texts(out@) =~= pair_texts(old(out)@) + pair_of(key@, *value));
        },
        None => {
            assert(pair_texts(out@) =~= pair_texts(old(out)@) + pair_of(key@, *value));
        },
    }
}

fn labelled(label: &str, value: &Option<String>) -> (r: String)
    ensures
        r@ == label@ + shown(*value),
{
    match value {
        Some(v) => join2(label, v.as_str()),
        None => {
            let r = String::from_str(label);
            assert(r@ =~= label@ + shown(*value));
            r
        },
    }
}

impl WorkflowConfig {
    /// The stable and the integration branch are named, and differ.
    pub open spec fn valid(self) -> bool {
        &&& self.stable@.len() > 0
        &&& self.integration@.len() > 0
        &&& self.stable@ != self.integration@
    }

    /// The configured prefix of a category, if one was ever set.
    pub open spec fn prefix(self, category: BranchCategory) -> Option<Seq<char>> {
        match category {
            BranchCategory::Feature => setting_text(self.feature),
            BranchCategory::Release => setting_text(self.release),
            BranchCategory::Hotfix => setting_text(self.hotfix),
            BranchCategory::Bugfix => setting_text(self.bugfix),
            BranchCategory::Support => setting_text(self.support),
        }
    }

    /// Every category has a prefix.
    pub open spec fn complete(self) -> bool {
        forall|c: BranchCategory| #[trigger] self.prefix(c) is Some
    }

    /// The configuration holds exactly what `stored` holds.
    pub open spec fn holds(self, stored: StoredSettings) -> bool {
        &&& Some(self.stable@) == setting_text(stored.stable)
        &&& Some(self.integration@) == setting_text(stored.integration)
        &&& forall|c: BranchCategory| #[trigger] self.prefix(c) == stored.prefix(c)
        &&& setting_text(self.version_tag) == setting_text(stored.version_tag)
    }

    /// Validates what the configuration store holds. The settings are
    /// accepted exactly when they name two distinct non-empty lines; prefixes
    /// may be absent, and are then missed when first needed.
    pub fn load(stored: StoredSettings) -> (r: Result<WorkflowConfig, FlowError>)
        ensures
            r is Ok <==> stored.names_two_lines(),
            r matches Ok(c) ==> c.valid() && c.holds(stored),
            r matches Err(e) ==> e@ == Failure::ConfigMissing,
    {
        let StoredSettings {
            stable,
            integration,
            feature,
            release,
            hotfix,
            bugfix,
            support,
            version_tag,
        } = stored;
        match (stable, integration) {
            (Some(s), Some(d)) => {
                if s.as_str().is_empty() || d.as_str().is_empty() || s == d {
                    Err(FlowError::ConfigMissing)
                } else {
                    Ok(
                        WorkflowConfig {
                            stable: s,
                            integration: d,
                            feature,
                            release,
                            hotfix,
                            bugfix,
                            support,
                            version_tag,
                        },
                    )
                }
            },
            _ => Err(FlowError::ConfigMissing),
        }
    }

    /// The configuration of a freshly initialized repository.
    pub fn standard() -> (r: WorkflowConfig)
        ensures
            r.valid(),
            r.complete(),
            r.stable@ == "master"@,
            r.integration@ == "develop"@,
            forall|c: BranchCategory| #[trigger] r.prefix(c) == Some(c.standard_prefix()),
            setting_text(r.version_tag) == Some(Seq::<char>::empty()),
    {
        proof {
            reveal_strlit("master");
            reveal_strlit("develop");
        }
        let r = WorkflowConfig {
            stable: String::from_str("master"),
            integration: String::from_str("develop"),
            feature: Some(BranchCategory::Feature.default_prefix()),
            release: Some(BranchCategory::Release.default_prefix()),
            hotfix: Some(BranchCategory::Hotfix.default_prefix()),
            bugfix: Some(BranchCategory::Bugfix.default_prefix()),
            support: Some(BranchCategory::Support.default_prefix()),
            version_tag: Some(String::new()),
        };
        r
    }

    /// The configured prefix of `category`, if one was ever set.
    pub fn prefix_of(&self, category: BranchCategory) -> (r: Option<&String>)
        ensures
            match r {
                Some(p) => self.prefix(category) == Some(p@),
                None => self.prefix(category) is None,
            },
    {
        match category {
            BranchCategory::Feature => self.feature.as_ref(),
            BranchCategory::Release => self.release.as_ref(),
            BranchCategory::Hotfix => self.hotfix.as_ref(),
            BranchCategory::Bugfix => self.bugfix.as_ref(),
            BranchCategory::Support => self.support.as_ref(),
        }
    }
}

} // verus!
