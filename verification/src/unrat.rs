//! Remediation: the commands that remove known remote-access tools and their
//! persistence. The functions plan; running the commands is the caller's
//! part, and a command that fails is passed over.

use vstd::prelude::*;
use crate::command::CommandLine;
use crate::command::CommandView;
use crate::command::Platform;
use crate::command::command;
use crate::command::command_views;
use crate::command::extend_plan;

verus! {

/// Process names of known remote-access tools, without the `.exe`.
pub open spec fn rat_processes() -> Seq<Seq<char>> {
    seq![
        "njrat"@,
        "quasar"@,
        "remcos"@,
        "asyncrat"@,
        "warzone"@,
        "nanocore"@,
        "darkcomet"@,
        "blackshades"@,
    ]
}

/// Registry keys that start programs at logon.
pub open spec fn run_keys() -> Seq<Seq<char>> {
    seq![
        "HKCU\\Software\\Microsoft\\Windows\\CurrentVersion\\Run"@,
        "HKLM\\Software\\Microsoft\\Windows\\CurrentVersion\\Run"@,
        "HKCU\\Software\\Microsoft\\Windows\\CurrentVersion\\RunOnce"@,
        "HKLM\\Software\\Microsoft\\Windows\\CurrentVersion\\RunOnce"@,
    ]
}

/// Names under which remote-access tools register scheduled tasks.
pub open spec fn suspicious_tasks() -> Seq<Seq<char>> {
    seq!["Updater"@, "WindowsUpdater"@, "AdobeUpdate"@, "SystemCheck"@, "ChromeUpdate"@]
}

/// The script that removes WMI event subscriptions.
pub open spec fn wmi_cleanup_script() -> Seq<char> {
    "Get-WmiObject -Namespace root\\subscription -Class __EventFilter | Remove-WmiObject -ErrorAction SilentlyContinue; Get-WmiObject -Namespace root\\subscription -Class CommandLineEventConsumer | Remove-WmiObject -ErrorAction SilentlyContinue; Get-WmiObject -Namespace root\\subscription -Class __FilterToConsumerBinding | Remove-WmiObject -ErrorAction SilentlyContinue;"@
}

/// Forcibly ends the process image `name.exe`.
pub open spec fn taskkill(name: Seq<char>) -> CommandView {
    CommandView { program: "taskkill"@, args: seq!["/F"@, "/IM"@, name + ".exe"@] }
}

/// Deletes a registry key with everything in it.
pub open spec fn reg_delete(key: Seq<char>) -> CommandView {
    CommandView { program: "reg"@, args: seq!["delete"@, key, "/f"@] }
}

/// Lists the scheduled tasks.
pub open spec fn schtasks_query() -> CommandView {
    CommandView { program: "schtasks"@, args: seq!["/Query"@, "/FO"@, "LIST"@] }
}

/// Deletes the scheduled task `name`.
pub open spec fn schtasks_delete(name: Seq<char>) -> CommandView {
    CommandView { program: "schtasks"@, args: seq!["/Delete"@, "/TN"@, name, "/F"@] }
}

/// Runs the WMI clean-up script.
pub open spec fn wmi_cleanup() -> CommandView {
    CommandView {
        program: "powershell"@,
        args: seq![
            "-NoProfile"@,
            "-ExecutionPolicy"@,
            "Bypass"@,
            "-Command"@,
            wmi_cleanup_script(),
        ],
    }
}

/// On Windows one `taskkill` per known process name, in the list's order;
/// elsewhere nothing.
pub open spec fn kill_plan(platform: Platform) -> Seq<CommandView> {
    if platform == Platform::Windows {
        Seq::new(rat_processes().len(), |i: int| taskkill(rat_processes()[i]))
    } else {
        Seq::empty()
    }
}

/// On Windows one `reg delete` per run key; elsewhere nothing.
pub open spec fn purge_plan(platform: Platform) -> Seq<CommandView> {
    if platform == Platform::Windows {
        Seq::new(run_keys().len(), |i: int| reg_delete(run_keys()[i]))
    } else {
        Seq::empty()
    }
}

/// On Windows a query of the tasks, then one deletion per suspicious name;
/// elsewhere nothing.
pub open spec fn schtasks_plan(platform: Platform) -> Seq<CommandView> {
    if platform == Platform::Windows {
        seq![schtasks_query()] + Seq::new(
            suspicious_tasks().len(),
            |i: int| schtasks_delete(suspicious_tasks()[i]),
        )
    } else {
        Seq::empty()
    }
}

/// On Windows the one clean-up command; elsewhere nothing.
pub open spec fn wmi_plan(platform: Platform) -> Seq<CommandView> {
    if platform == Platform::Windows {
        seq![wmi_cleanup()]
    } else {
        Seq::empty()
    }
}

/// The four clean-ups, in this order: processes, run keys, scheduled tasks,
/// WMI subscriptions.
pub open spec fn recovery_plan(platform: Platform) -> Seq<CommandView> {
    kill_plan(platform) + purge_plan(platform) + schtasks_plan(platform) + wmi_plan(platform)
}

fn rat_process(k: usize) -> (name: &'static str)
    requires
        k < 8,
    ensures
        name@ == rat_processes()[k as int],
{
    let table: [&'static str; 8] = [
        "njrat",
        "quasar",
        "remcos",
        "asyncrat",
        "warzone",
        "nanocore",
        "darkcomet",
        "blackshades",
    ];
    table[k]
}

fn run_key(k: usize) -> (key: &'static str)
    requires
        k < 4,
    ensures
        key@ == run_keys()[k as int],
{
    let table: [&'static str; 4] = [
        "HKCU\\Software\\Microsoft\\Windows\\CurrentVersion\\Run",
        "HKLM\\Software\\Microsoft\\Windows\\CurrentVersion\\Run",
        "HKCU\\Software\\Microsoft\\Windows\\CurrentVersion\\RunOnce",
        "HKLM\\Software\\Microsoft\\Windows\\CurrentVersion\\RunOnce",
    ];
    table[k]
}

fn suspicious_task(k: usize) -> (name: &'static str)
    requires
        k < 5,
    ensures
        name@ == suspicious_tasks()[k as int],
{
    let table: [&'static str; 5] = [
        "Updater",
        "WindowsUpdater",
        "AdobeUpdate",
        "SystemCheck",
        "ChromeUpdate",
    ];
    table[k]
}

/// The commands that end the processes of known remote-access tools.
pub fn kill_known_rat_processes(platform: Platform) -> (plan: Vec<CommandLine>)
    ensures
        command_views(plan@) == kill_plan(platform),
{
    let mut plan: Vec<CommandLine> = Vec::new();
    if platform == Platform::Windows {
        let mut k: usize = 0;
        while k < 8
            invariant
                k <= 8,
                plan@.len() == k,
                forall|j: int| 0 <= j < k ==> plan@[j]@ == taskkill(rat_processes()[j]),
            decreases 8 - k,
        {
            let mut image = rat_process(k).to_owned();
            image.append(".exe");
            let line = command("taskkill", &vec!["/F", "/IM", image.as_str()]);
            assert(line@.args =~= taskkill(rat_processes()[k as int]).args);
            plan.push(line);
            k += 1;
        }
    }
    assert(command_views(plan@) =~= kill_plan(platform));
    plan
}

/// The commands that delete the logon run keys.
pub fn purge_run_keys(platform: Platform) -> (plan: Vec<CommandLine>)
    ensures
        command_views(plan@) == purge_plan(platform),
{
    let mut plan: Vec<CommandLine> = Vec::new();
    if platform == Platform::Windows {
        let mut k: usize = 0;
        while k < 4
            invariant
                k <= 4,
                plan@.len() == k,
                forall|j: int| 0 <= j < k ==> plan@[j]@ == reg_delete(run_keys()[j]),
            decreases 4 - k,
        {
            let line = command("reg", &vec!["delete", run_key(k), "/f"]);
            assert(line@.args =~= reg_delete(run_keys()[k as int]).args);
            plan.push(line);
            k += 1;
        }
    }
    assert(command_views(plan@) =~= purge_plan(platform));
    plan
}

/// The commands that delete scheduled tasks with suspicious names.
pub fn remove_suspicious_schtasks(platform: Platform) -> (plan: Vec<CommandLine>)
    ensures
        command_views(plan@) == schtasks_plan(platform),
{
    let mut plan: Vec<CommandLine> = Vec::new();
    if platform == Platform::Windows {
        let query = command("schtasks", &vec!["/Query", "/FO", "LIST"]);
        assert(query@.args =~= schtasks_query().args);
        plan.push(query);
        let mut k: usize = 0;
        while k < 5
            invariant
                k <= 5,
                plan@.len() == k + 1,
                plan@[0]@ == schtasks_query(),
                forall|j: int| 0 <= j < k ==> plan@[j + 1]@ == schtasks_delete(suspicious_tasks()[j]),
            decreases 5 - k,
        {
            let line = command("schtasks", &vec!["/Delete", "/TN", suspicious_task(k), "/F"]);
            assert(line@.args =~= schtasks_delete(suspicious_tasks()[k as int]).args);
            plan.push(line);
            k += 1;
        }
    }
    assert(command_views(plan@) =~= schtasks_plan(platform));
    plan
}

/// The command that clears WMI subscription persistence.
pub fn clear_wmi_persistence(platform: Platform) -> (plan: Vec<CommandLine>)
    ensures
        command_views(plan@) == wmi_plan(platform),
{
    let mut plan: Vec<CommandLine> = Vec::new();
    if platform == Platform::Windows {
        let line = command(
            "powershell",
            &vec![
                "-NoProfile",
                "-ExecutionPolicy",
                "Bypass",
                "-Command",
                "Get-WmiObject -Namespace root\\subscription -Class __EventFilter | Remove-WmiObject -ErrorAction SilentlyContinue; Get-WmiObject -Namespace root\\subscription -Class CommandLineEventConsumer | Remove-WmiObject -ErrorAction SilentlyContinue; Get-WmiObject -Namespace root\\subscription -Class __FilterToConsumerBinding | Remove-WmiObject -ErrorAction SilentlyContinue;",
            ],
        );
        assert(line@.args =~= wmi_cleanup().args);
        plan.push(line);
    }
    assert(command_views(plan@) =~= wmi_plan(platform));
    plan
}

/// The whole recovery: every clean-up, one after the other.
pub fn one_click_recovery(platform: Platform) -> (plan: Vec<CommandLine>)
    ensures
        command_views(plan@) == recovery_plan(platform),
{
    let mut plan = kill_known_rat_processes(platform);
    extend_plan(&mut plan, purge_run_keys(platform));
    extend_plan(&mut plan, remove_suspicious_schtasks(platform));
    extend_plan(&mut plan, clear_wmi_persistence(platform));
    plan
}

/// Clearing caches needs no command on any platform.
pub fn memory_purge() -> (plan: Vec<CommandLine>)
    ensures
        plan@.len() == 0,
{
    Vec::new()
}

} // verus!
