//! A declarative builder for shell scripts that serve as version-control
//! pre-commit hooks.
//!
//! A caller describes an ordered list of checks (external command invocations
//! such as formatters or linters), each with its policy: whether the command
//! must be present, how a failure affects the remaining checks, whether output
//! of a successful run is suppressed, and optional display name and install
//! instructions. [`CommitGuard::build_sh`] compiles that list into one
//! self-contained POSIX-ish shell script; the library never executes a check
//! itself.
//!
//! Rendering is a pure, deterministic function of the ordered checks, and it
//! never fails: any constructible guard — the empty one included — renders a
//! complete script. All failure handling happens later, at shell run time.
//! The emitted script runs its checks strictly one after another and waits on
//! each command with no timeout of its own: a hung command hangs the whole
//! hook. That is a limitation of the target shell execution model.

pub mod check;
pub mod guard;
pub mod render;
pub mod semantics;

pub use check::Check;
pub use check::CheckView;
pub use check::ErrorMode;
pub use guard::CommitGuard;
