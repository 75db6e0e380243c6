//! How the agent tool is started: directly, or through the script runner
//! where the tool is a script.

use crate::settings::is_node_script;
use crate::text::{has_suffix, texts};
use vstd::prelude::*;
use vstd::string::*;

verus! {

/// A variable of the environment of a process.
#[derive(Debug)]
pub struct EnvVar {
    pub name: String,
    pub value: String,
}

/// `EnvVar` with its texts as sequences of characters.
pub ghost struct EnvVarView {
    pub name: Seq<char>,
    pub value: Seq<char>,
}

impl View for EnvVar {
    type V = EnvVarView;

    open spec fn view(&self) -> EnvVarView {
        EnvVarView { name: self.name@, value: self.value@ }
    }
}

impl DeepView for EnvVar {
    type V = EnvVarView;

    open spec fn deep_view(&self) -> EnvVarView {
        self@
    }
}

/// A process to start: the program, its arguments, and the variables
/// that are set for it on top of the environment it inherits.
#[derive(Debug)]
pub struct Invocation {
    pub program: String,
    pub args: Vec<String>,
    pub env: Vec<EnvVar>,
}

/// `Invocation` as a mathematical value.
pub ghost struct InvocationView {
    pub program: Seq<char>,
    pub args: Seq<Seq<char>>,
    pub env: Seq<EnvVarView>,
}

impl View for Invocation {
    type V = InvocationView;

    open spec fn view(&self) -> InvocationView {
        InvocationView {
            program: self.program@,
            args: texts(self.args@),
            env: self.env.deep_view(),
        }
    }
}

/// The two variables that keep the script runner quiet.
pub open spec fn quiet_env() -> Seq<EnvVarView> {
    seq![
        EnvVarView { name: "NODE_NO_WARNINGS"@, value: "1"@ },
        EnvVarView { name: "NODE_OPTIONS"@, value: "--no-deprecation"@ },
    ]
}

/// Whether the tool is a script for the script runner.
pub open spec fn is_script(path: Seq<char>) -> bool {
    has_suffix(path, ".mjs"@) || has_suffix(path, ".js"@)
}

/// How the tool is started. A script is handed to the script runner as
/// its first argument. Any other tool is started itself, with the
/// directory of the script runner put before the search path, where that
/// directory is known, in case the tool is a shim.
pub open spec fn invocation(
    openclaw_bin: Seq<char>,
    args: Seq<Seq<char>>,
    node: Seq<char>,
    node_dir: Option<Seq<char>>,
    search_path: Seq<char>,
) -> InvocationView {
    if is_script(openclaw_bin) {
        InvocationView { program: node, args: seq![openclaw_bin] + args, env: quiet_env() }
    } else {
        InvocationView {
            program: openclaw_bin,
            args,
            env: quiet_env() + (match node_dir {
                Some(dir) => seq![EnvVarView { name: "PATH"@, value: dir + ":"@ + search_path }],
                None => Seq::<EnvVarView>::empty(),
            }),
        }
    }
}

/// Plans the start of the tool. `openclaw_bin` is the resolved path of
/// the tool, `node` that of the script runner, `node_dir` the directory
/// that holds the script runner, and `search_path` the search path of
/// this process.
pub fn run_openclaw(
    openclaw_bin: String,
    args: Vec<String>,
    node: String,
    node_dir: Option<String>,
    search_path: &str,
) -> (r: Invocation)
    ensures
        r@ == invocation(openclaw_bin@, texts(args@), node@, node_dir.deep_view(), search_path@),
{
    let mut env: Vec<EnvVar> = Vec::new();
    env.push(EnvVar { name: String::from_str("NODE_NO_WARNINGS"), value: String::from_str("1") });
    env.push(
        EnvVar {
            name: String::from_str("NODE_OPTIONS"),
            value: String::from_str("--no-deprecation"),
        },
    );
    assert(env.deep_view() =~= quiet_env());
    if is_node_script(openclaw_bin.as_str()) {
        let mut all: Vec<String> = Vec::new();
        all.push(openclaw_bin);
        let mut rest = args;
        let ghost head = texts(all@);
        let ghost tail = texts(rest@);
        all.append(&mut rest);
        assert(texts(all@) =~= head + tail);
        assert(head =~= seq![openclaw_bin@]);
        Invocation { program: node, args: all, env }
    } else {
        match node_dir {
            Some(dir) => {
                let mut value = dir;
                value.append(":");
                value.append(search_path);
                let ghost before = env.deep_view();
                let var = EnvVar { name: String::from_str("PATH"), value };
                env.push(var);
                assert(env.deep_view() =~= before + seq![var@]);
            },
            None => {},
        }
        Invocation { program: openclaw_bin, args, env }
    }
}

} // verus!
