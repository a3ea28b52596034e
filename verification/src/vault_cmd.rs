//! The decisions of the two vault commands: make a vault the default, and
//! list the vaults.

use vstd::prelude::*;
use vstd::string::StringExecFns;

verus! {

/// Change the default vault.
#[derive(Clone, Debug)]
pub struct DefaultCommand {
    /// Name of the vault to be set as default.
    pub name: String,
}

/// List vaults.
#[derive(Clone, Copy, Debug, PartialEq, Eq, Structural)]
pub struct ListCommand;

/// What becomes of a request to make a vault the default.
#[derive(Clone, Copy, Debug, PartialEq, Eq, Structural)]
pub enum DefaultPlan {
    /// The vault exists and is not the default: make it the default.
    SetDefault,
    /// The vault is the default already.
    AlreadyDefault,
    /// No vault of that name exists.
    NotFound,
}

/// What becomes of such a request, from what the store says of the vault.
pub open spec fn default_plan(found: bool, is_default: bool) -> DefaultPlan {
    if !found {
        DefaultPlan::NotFound
    } else if is_default {
        DefaultPlan::AlreadyDefault
    } else {
        DefaultPlan::SetDefault
    }
}

/// The words that report a plan for the vault `name`.
pub open spec fn default_text(name: Seq<char>, plan: DefaultPlan) -> Seq<char> {
    "Vault '"@ + name + (match plan {
        DefaultPlan::SetDefault => "' is now the default"@,
        DefaultPlan::AlreadyDefault => "' is already the default"@,
        DefaultPlan::NotFound => "' not found"@,
    })
}

impl DefaultCommand {
    /// Decides what to do, given whether the store knows the vault and
    /// whether the vault is the default. Only `SetDefault` is a success.
    pub fn plan(&self, found: bool, is_default: bool) -> (p: DefaultPlan)
        ensures
            p == default_plan(found, is_default),
    {
        if !found {
            DefaultPlan::NotFound
        } else if is_default {
            DefaultPlan::AlreadyDefault
        } else {
            DefaultPlan::SetDefault
        }
    }

    /// The words that report `plan` to the user.
    pub fn report(&self, plan: DefaultPlan) -> (text: String)
        ensures
            text@ == default_text(self.name@, plan),
    {
        let head: String = String::from_str("Vault '").concat(self.name.as_str());
        match plan {
            DefaultPlan::SetDefault => head.concat("' is now the default"),
            DefaultPlan::AlreadyDefault => head.concat("' is already the default"),
            DefaultPlan::NotFound => head.concat("' not found"),
        }
    }
}

/// The words that say that there is no vault to list.
pub open spec fn no_vaults_text() -> Seq<char> {
    "No vaults registered on this system!"@
}

impl ListCommand {
    /// Is there anything to list? Where there is not, the error is the
    /// sentence that says so.
    pub fn check(&self, vaults: usize) -> (r: Result<(), String>)
        ensures
            r.is_ok() <==> vaults > 0,
            r matches Err(text) ==> text@ == no_vaults_text(),
    {
        if vaults == 0 {
            Err(String::from_str("No vaults registered on this system!"))
        } else {
            Ok(())
        }
    }

    /// A line of a vault's description as it is listed: moved in by two
    /// spaces.
    pub fn indent(&self, line: &str) -> (text: String)
        ensures
            text@ == "  "@ + line@,
    {
        String::from_str("  ").concat(line)
    }
}

} // verus!
