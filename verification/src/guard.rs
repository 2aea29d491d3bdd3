//! The ordered check collection and the whole-script assembly.

use vstd::prelude::*;

use crate::check::Check;
use crate::check::CheckView;
use crate::render::check_blocks;
use crate::render::lemma_check_blocks_snoc;
use crate::render::render_block;
use crate::render::script_text;

verus! {

/// Builder for a new pre-commit hook: an ordered sequence of checks,
/// compiled together into one script. Insertion order is significant — the
/// emitted script runs the checks top to bottom. The view is the sequence of
/// the checks' views.
pub struct CommitGuard {
    /// The checks to run.
    checks: Vec<Check>,
}

impl View for CommitGuard {
    type V = Seq<CheckView>;

    closed spec fn view(&self) -> Seq<CheckView> {
        self.checks@.map_values(|c: Check| c@)
    }
}

impl CommitGuard {
    /// Construct a guard with no checks.
    pub fn new() -> (guard: Self)
        ensures
            guard@ == Seq::<CheckView>::empty(),
    {
        let guard = CommitGuard { checks: Vec::new() };
        proof {
            assert(guard@ =~= Seq::<CheckView>::empty());
        }
        guard
    }

    /// Add a check to the end of the guard.
    ///
    /// Construct checks with `Check::new()`.
    pub fn check(self, check: Check) -> (guard: Self)
        ensures
            guard@ == self@.push(check@),
    {
        let mut guard = self;
        guard.checks.push(check);
        proof {
            assert(guard@ =~= self@.push(check@));
        }
        guard
    }

    /// Build the commit guard as an SH shell script.
    ///
    /// The result is exactly [`script_text`] of the checks' views: the
    /// preamble, one block per check in insertion order, and the epilogue.
    /// Rendering has no side effect and no other input, so equal guards
    /// render identical text, however they were built.
    pub fn build_sh(&self) -> (script: String)
        ensures
            script@ == script_text(self@),
    {
        let mut script = String::new();
        script.append("#! /bin/sh\n\n");
        script.append(
            "# This hook script was created by commitguard (https://github.com/theduke/commitguard)\n\n",
        );
        script.append("echo 'Running commit guards...\n'\n\n");
        script.append("FAILED_CHECKS=''\n\n");
        proof {
            assert(script@ =~= crate::render::script_preamble());
        }
        let mut i: usize = 0;
        while i < self.checks.len()
            invariant
                i <= self.checks.len(),
                script@ == crate::render::script_preamble() + check_blocks(self@.take(i as int)),
                self@ == self.checks@.map_values(|c: Check| c@),
            decreases self.checks.len() - i,
        {
            let block = render_block(&self.checks[i]);
            script.append(block.as_str());
            proof {
                lemma_check_blocks_snoc(self@.take(i as int), self@[i as int]);
                assert(self@.take(i as int).push(self@[i as int]) =~= self@.take(i + 1 as int));
            }
            i = i + 1;
        }
        script.append(
            "if [ ! -z \"$FAILED_CHECKS\" ]; then\n    echo \"Failed checks: $FAILED_CHECKS\"\n    exit 1\nfi\n\nexit 0\n",
        );
        proof {
            assert(self@.take(self.checks@.len() as int) =~= self@);
            assert(script@ =~= script_text(self@));
        }
        script
    }
}

} // verus!
