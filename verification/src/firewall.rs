//! Firewall rules: the `netsh` command lines that block a domain or an
//! address, switch to default-deny for inbound traffic, or delete a rule.

use vstd::prelude::*;
use crate::command::CommandLine;
use crate::command::CommandView;
use crate::command::Platform;
use crate::command::command;
use crate::command::command_views;

verus! {

/// `netsh` with the given arguments.
pub open spec fn netsh(args: Seq<Seq<char>>) -> CommandView {
    CommandView { program: "netsh"@, args }
}

/// The name of the rule that blocks `domain`.
pub open spec fn domain_rule_name(domain: Seq<char>) -> Seq<char> {
    "WIB_Block_"@ + domain
}

/// The name of the rule that blocks the address `ip`.
pub open spec fn ip_rule_name(ip: Seq<char>) -> Seq<char> {
    "WIB_BlockIP_"@ + ip
}

/// Adds an outbound block rule named after the domain.
pub open spec fn block_domain_command(domain: Seq<char>) -> CommandView {
    netsh(
        seq![
            "advfirewall"@,
            "firewall"@,
            "add"@,
            "rule"@,
            "name="@,
            domain_rule_name(domain),
            "dir=out"@,
            "action=block"@,
            "enable=yes"@,
            "remoteip=any"@,
            "remoteport=any"@,
        ],
    )
}

/// Adds an outbound block rule for one remote address.
pub open spec fn block_ip_command(ip: Seq<char>) -> CommandView {
    netsh(
        seq![
            "advfirewall"@,
            "firewall"@,
            "add"@,
            "rule"@,
            "name="@,
            ip_rule_name(ip),
            "dir=out"@,
            "action=block"@,
            "enable=yes"@,
            "remoteip="@,
            ip,
        ],
    )
}

/// Blocks all inbound and allows all outbound traffic, on every profile.
pub open spec fn zero_trust_command() -> CommandView {
    netsh(
        seq![
            "advfirewall"@,
            "set"@,
            "allprofiles"@,
            "firewallpolicy"@,
            "blockinbound,allowoutbound"@,
        ],
    )
}

/// Deletes the rule `name`.
pub open spec fn remove_rule_command(name: Seq<char>) -> CommandView {
    netsh(seq!["advfirewall"@, "firewall"@, "delete"@, "rule"@, "name="@, name])
}

/// The one command on Windows, nothing elsewhere.
pub open spec fn on_windows(platform: Platform, line: CommandView) -> Seq<CommandView> {
    if platform == Platform::Windows {
        seq![line]
    } else {
        Seq::empty()
    }
}

fn plan_on_windows(platform: Platform, line: CommandLine) -> (plan: Vec<CommandLine>)
    ensures
        command_views(plan@) == on_windows(platform, line@),
{
    let mut plan: Vec<CommandLine> = Vec::new();
    if platform == Platform::Windows {
        plan.push(line);
    }
    assert(command_views(plan@) =~= on_windows(platform, line@));
    plan
}

/// The command that blocks outbound traffic under a rule named after
/// `domain`.
pub fn block_domain(platform: Platform, domain: &str) -> (plan: Vec<CommandLine>)
    ensures
        command_views(plan@) == on_windows(platform, block_domain_command(domain@)),
{
    let mut rule_name = "WIB_Block_".to_owned();
    rule_name.append(domain);
    let line = command(
        "netsh",
        &vec![
            "advfirewall",
            "firewall",
            "add",
            "rule",
            "name=",
            rule_name.as_str(),
            "dir=out",
            "action=block",
            "enable=yes",
            "remoteip=any",
            "remoteport=any",
        ],
    );
    assert(line@.args =~= block_domain_command(domain@).args);
    plan_on_windows(platform, line)
}

/// The command that blocks outbound traffic to the address `ip`.
pub fn block_ip(platform: Platform, ip: &str) -> (plan: Vec<CommandLine>)
    ensures
        command_views(plan@) == on_windows(platform, block_ip_command(ip@)),
{
    let mut rule_name = "WIB_BlockIP_".to_owned();
    rule_name.append(ip);
    let line = command(
        "netsh",
        &vec![
            "advfirewall",
            "firewall",
            "add",
            "rule",
            "name=",
            rule_name.as_str(),
            "dir=out",
            "action=block",
            "enable=yes",
            "remoteip=",
            ip,
        ],
    );
    assert(line@.args =~= block_ip_command(ip@).args);
    plan_on_windows(platform, line)
}

/// The command that makes default-deny the inbound policy.
pub fn enable_zero_trust(platform: Platform) -> (plan: Vec<CommandLine>)
    ensures
        command_views(plan@) == on_windows(platform, zero_trust_command()),
{
    let line = command(
        "netsh",
        &vec!["advfirewall", "set", "allprofiles", "firewallpolicy", "blockinbound,allowoutbound"],
    );
    assert(line@.args =~= zero_trust_command().args);
    plan_on_windows(platform, line)
}

/// The command that deletes the rule `name`.
pub fn remove_rule(platform: Platform, name: &str) -> (plan: Vec<CommandLine>)
    ensures
        command_views(plan@) == on_windows(platform, remove_rule_command(name@)),
{
    let line = command("netsh", &vec!["advfirewall", "firewall", "delete", "rule", "name=", name]);
    assert(line@.args =~= remove_rule_command(name@).args);
    plan_on_windows(platform, line)
}

} // verus!
