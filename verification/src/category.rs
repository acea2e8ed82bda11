//! The categories of workflow branches and what each of them stands for.

use vstd::prelude::*;
use vstd::string::*;
use crate::text::{join2, same_text};

verus! {

/// The kind of a short-lived workflow branch.
#[derive(Clone, Copy, Debug, PartialEq, Eq, Structural)]
pub enum BranchCategory {
    Feature,
    Release,
    Hotfix,
    Bugfix,
    Support,
}

/// What an operator can ask of a branch of some category.
#[derive(Clone, Copy, Debug, PartialEq, Eq, Structural)]
pub enum Operation {
    Start,
    Finish,
    List,
    Publish,
    Track,
    Diff,
    Rebase,
    Checkout,
    Delete,
}

/// The namespace under which the workflow settings are persisted.
pub open spec fn prefix_key_stem() -> Seq<char> {
    "workflow.prefix."@
}

impl BranchCategory {
    /// The word that names the category on the command line and in settings.
    pub open spec fn word(self) -> Seq<char> {
        match self {
            BranchCategory::Feature => "feature"@,
            BranchCategory::Release => "release"@,
            BranchCategory::Hotfix => "hotfix"@,
            BranchCategory::Bugfix => "bugfix"@,
            BranchCategory::Support => "support"@,
        }
    }

    /// Finishing a branch of this category tags the stable line.
    pub open spec fn tagged(self) -> bool {
        self is Release || self is Hotfix
    }

    /// The base of a new branch of this category is chosen by the caller.
    pub open spec fn caller_based(self) -> bool {
        self is Support
    }

    /// The prefix that a category has unless another one is configured.
    pub open spec fn standard_prefix(self) -> Seq<char> {
        self.word() + "/"@
    }

    /// The key under which the category's prefix is persisted.
    pub open spec fn setting_key(self) -> Seq<char> {
        prefix_key_stem() + self.word()
    }

    /// Whether the front end offers `op` for this category.
    pub open spec fn offers(self, op: Operation) -> bool {
        match self {
            BranchCategory::Feature | BranchCategory::Bugfix => true,
            BranchCategory::Release => !(op is Diff || op is Rebase || op is Checkout),
            BranchCategory::Hotfix => !(op is Track || op is Diff || op is Rebase || op is Checkout),
            BranchCategory::Support => op is Start || op is List,
        }
    }

    /// The category's word.
    pub fn name(self) -> (r: &'static str)
        ensures
            r@ == self.word(),
    {
        match self {
            BranchCategory::Feature => "feature",
            BranchCategory::Release => "release",
            BranchCategory::Hotfix => "hotfix",
            BranchCategory::Bugfix => "bugfix",
            BranchCategory::Support => "support",
        }
    }

    /// Whether finishing a branch of this category tags the stable line.
    pub fn uses_tag(self) -> (r: bool)
        ensures
            r == self.tagged(),
    {
        match self {
            BranchCategory::Release | BranchCategory::Hotfix => true,
            _ => false,
        }
    }

    /// Whether a start of this category needs a base from the caller.
    pub fn needs_base(self) -> (r: bool)
        ensures
            r == self.caller_based(),
    {
        match self {
            BranchCategory::Support => true,
            _ => false,
        }
    }

    /// The category's prefix in a freshly initialized repository.
    pub fn default_prefix(self) -> (r: String)
        ensures
            r@ == self.standard_prefix(),
    {
        join2(self.name(), "/")
    }

    /// The key under which the category's prefix is persisted.
    pub fn prefix_key(self) -> (r: String)
        ensures
            r@ == self.setting_key(),
    {
        join2("workflow.prefix.", self.name())
    }

    /// Reads a category from its word; any other word names none.
    pub fn from_name(word: &str) -> (r: Option<BranchCategory>)
        ensures
            match r {
                Some(c) => c.word() == word@,
                None => forall|c: BranchCategory| c.word() != word@,
            },
    {
        if same_text(word, "feature") {
            Some(BranchCategory::Feature)
        } else if same_text(word, "release") {
            Some(BranchCategory::Release)
        } else if same_text(word, "hotfix") {
            Some(BranchCategory::Hotfix)
        } else if same_text(word, "bugfix") {
            Some(BranchCategory::Bugfix)
        } else if same_text(word, "support") {
            Some(BranchCategory::Support)
        } else {
            None
        }
    }

    /// Whether the front end offers `op` for this category.
    pub fn supports(self, op: Operation) -> (r: bool)
        ensures
            r == self.offers(op),
    {
        match self {
            BranchCategory::Feature | BranchCategory::Bugfix => true,
            BranchCategory::Release => match op {
                Operation::Diff | Operation::Rebase | Operation::Checkout => false,
                _ => true,
            },
            BranchCategory::Hotfix => match op {
                Operation::Track | Operation::Diff | Operation::Rebase | Operation::Checkout => false,
                _ => true,
            },
            BranchCategory::Support => match op {
                Operation::Start | Operation::List => true,
                _ => false,
            },
        }
    }
}

/// No two categories share a word, so a word names at most one category.
pub proof fn words_are_distinct(a: BranchCategory, b: BranchCategory)
    requires
        a.word() == b.word(),
    ensures
        a == b,
{
    reveal_strlit("feature");
    reveal_strlit("release");
    reveal_strlit("hotfix");
    reveal_strlit("bugfix");
    reveal_strlit("support");
    assert("feature"@[0] == 'f');
    assert("release"@[0] == 'r');
    assert("hotfix"@[0] == 'h');
    assert("bugfix"@[0] == 'b');
    assert("support"@[0] == 's');
    assert(a.word()[0] == b.word()[0]);
}

} // verus!
