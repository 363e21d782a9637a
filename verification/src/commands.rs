use vstd::prelude::*;
use vstd::string::StrSliceExecFns;

verus! {

/// The name under which the plugin registers with the host application.
pub const PLUGIN_NAME: &'static str = "nspopover";

/// The commands that the plugin exposes to the webview.
#[derive(Clone, Copy, Debug, PartialEq, Eq, Structural)]
pub enum Command {
    ShowPopover,
    HidePopover,
    IsPopoverShown,
}

/// The name under which a command is invoked.
pub open spec fn command_name(c: Command) -> Seq<char> {
    match c {
        Command::ShowPopover => seq!['s', 'h', 'o', 'w', '_', 'p', 'o', 'p', 'o', 'v', 'e', 'r'],
        Command::HidePopover => seq!['h', 'i', 'd', 'e', '_', 'p', 'o', 'p', 'o', 'v', 'e', 'r'],
        Command::IsPopoverShown => seq![
            'i', 's', '_', 'p', 'o', 'p', 'o', 'v', 'e', 'r', '_', 's', 'h', 'o', 'w', 'n',
        ],
    }
}

/// Whether two strings hold the same characters.
fn str_eq(a: &str, b: &str) -> (r: bool)
    ensures
        r == (a@ == b@),
{
    let n = a.unicode_len();
    if n != b.unicode_len() {
        return false;
    }
    let mut i: usize = 0;
    while i < n
        invariant
            n == a@.len(),
            n == b@.len(),
            i <= n,
            forall|j: int| 0 <= j < i ==> a@[j] == b@[j],
        decreases n - i,
    {
        if a.get_char(i) != b.get_char(i) {
            return false;
        }
        i = i + 1;
    }
    assert(a@ =~= b@);
    true
}

impl Command {
    /// The name under which the command is invoked.
    pub fn name(&self) -> (r: &'static str)
        ensures
            r@ == command_name(*self),
    {
        match self {
            Command::ShowPopover => {
                proof { reveal_strlit("show_popover"); }
                "show_popover"
            },
            Command::HidePopover => {
                proof { reveal_strlit("hide_popover"); }
                "hide_popover"
            },
            Command::IsPopoverShown => {
                proof { reveal_strlit("is_popover_shown"); }
                "is_popover_shown"
            },
        }
    }

    /// The command invoked under `name`, if any.
    pub fn from_name(name: &str) -> (r: Option<Command>)
        ensures
            forall|c: Command| #![trigger command_name(c)] r == Some(c) <==> command_name(c) == name@,
    {
        let all = Command::all();
        let mut i: usize = 0;
        while i < all.len()
            invariant
                i <= all.len(),
                all@ == all_commands(),
                forall|j: int| 0 <= j < i ==> command_name(#[trigger] all@[j]) != name@,
            decreases all.len() - i,
        {
            let c = all[i];
            if str_eq(c.name(), name) {
                proof {
                    assert forall|d: Command| #![trigger command_name(d)]
                        Some(c) == Some(d) <==> command_name(d) == name@ by {
                        crate::laws::law_command_names_distinct(c, d);
                    }
                }
                return Some(c);
            }
            i = i + 1;
        }
        proof {
            assert forall|c: Command| command_name(c) != name@ by {
                lemma_all_commands_complete(c);
                let k = choose|k: int| 0 <= k < all_commands().len() && all_commands()[k] == c;
                assert(command_name(all@[k]) != name@);
            }
        }
        None
    }

    /// Every command, in the order the plugin declares them.
    pub fn all() -> (r: Vec<Command>)
        ensures
            r@ == all_commands(),
    {
        vec![Command::ShowPopover, Command::HidePopover, Command::IsPopoverShown]
    }
}

/// Every command, in the order the plugin declares them.
pub open spec fn all_commands() -> Seq<Command> {
    seq![Command::ShowPopover, Command::HidePopover, Command::IsPopoverShown]
}

/// Every command occurs in the declared list.
pub proof fn lemma_all_commands_complete(c: Command)
    ensures
        exists|k: int| 0 <= k < all_commands().len() && all_commands()[k] == c,
{
    match c {
        Command::ShowPopover => assert(all_commands()[0] == c),
        Command::HidePopover => assert(all_commands()[1] == c),
        Command::IsPopoverShown => assert(all_commands()[2] == c),
    }
}

} // verus!
