use vstd::prelude::*;

verus! {

/// The envelope that every directive line starts with.
pub open spec fn build_line(msg: Seq<char>) -> Seq<char> {
    "build-tool-namespace::"@ + msg
}

/// A directive addressed to the lint tool.
pub open spec fn lint_line(msg: Seq<char>) -> Seq<char> {
    build_line("lint-tool-"@ + msg)
}

/// A directive addressed to the compiler.
pub open spec fn compiler_line(msg: Seq<char>) -> Seq<char> {
    build_line("compiler-"@ + msg)
}

/// A rebuild trigger on the path whose display form is `path`.
pub open spec fn rerun_line(path: Seq<char>) -> Seq<char> {
    build_line("rerun-if-changed="@ + path)
}

/// A declaration of valid configuration space, with `pred` taken as given.
pub open spec fn raw_check_cfg_line(pred: Seq<char>) -> Seq<char> {
    compiler_line("check-cfg="@ + pred)
}

/// `t` starts with `cfg(` and ends with `)`.
pub open spec fn is_cfg_wrapped(t: Seq<char>) -> bool {
    &&& t.len() >= 4
    &&& t.subrange(0, 4) == "cfg("@
    &&& t.last() == ')'
}

/// `t` as a configuration predicate: kept when already wrapped in `cfg(...)`,
/// wrapped otherwise.
pub open spec fn wrap_cfg(t: Seq<char>) -> Seq<char> {
    if is_cfg_wrapped(t) {
        t
    } else {
        "cfg("@ + t + ")"@
    }
}

/// A declaration of valid configuration space for the predicate `t`.
pub open spec fn check_cfg_line(t: Seq<char>) -> Seq<char> {
    raw_check_cfg_line(wrap_cfg(t))
}

/// The predicate that admits the configuration key `name` with the single value `value`.
pub open spec fn key_value_pred(name: Seq<char>, value: Seq<char>) -> Seq<char> {
    "cfg("@ + name + ", values(\""@ + value + "\"))"@
}

/// An active configuration declaration of `msg`.
pub open spec fn cfg_line(msg: Seq<char>) -> Seq<char> {
    compiler_line("cfg="@ + msg)
}

/// An active configuration declaration of the key `name` set to `value`.
pub open spec fn cfg_key_value_line(name: Seq<char>, value: Seq<char>) -> Seq<char> {
    cfg_line(name + "=\""@ + value + "\""@)
}

/// Wrapping a text in `cfg(...)` always gives a wrapped predicate.
pub proof fn lemma_wrapped_is_cfg(t: Seq<char>)
    ensures
        is_cfg_wrapped("cfg("@ + t + ")"@),
{
    reveal_strlit("cfg(");
    reveal_strlit(")");
    let s = "cfg("@ + t + ")"@;
    assert(s.subrange(0, 4) =~= "cfg("@);
}

/// The single-value predicate is already wrapped in `cfg(...)`.
pub proof fn lemma_key_value_pred_is_cfg(name: Seq<char>, value: Seq<char>)
    ensures
        is_cfg_wrapped(key_value_pred(name, value)),
{
    reveal_strlit("cfg(");
    reveal_strlit("\"))");
    let s = key_value_pred(name, value);
    assert(s.subrange(0, 4) =~= "cfg("@);
}

/// A text that is not yet in `cfg(...)` form is declared wrapped in `cfg(...)`.
pub proof fn lemma_check_cfg_wraps_bare(t: Seq<char>)
    requires
        !is_cfg_wrapped(t),
    ensures
        check_cfg_line(t) == raw_check_cfg_line("cfg("@ + t + ")"@),
{
}

/// A text already in `cfg(...)` form is declared unchanged.
pub proof fn lemma_check_cfg_keeps_wrapped(t: Seq<char>)
    requires
        is_cfg_wrapped(t),
    ensures
        check_cfg_line(t) == raw_check_cfg_line(t),
{
}

/// Wrapping is idempotent: a predicate that was wrapped once is left as it is.
pub proof fn lemma_wrap_cfg_idempotent(t: Seq<char>)
    ensures
        wrap_cfg(wrap_cfg(t)) == wrap_cfg(t),
        is_cfg_wrapped(wrap_cfg(t)),
{
    if !is_cfg_wrapped(t) {
        lemma_wrapped_is_cfg(t);
    }
}

/// Whether `t` starts with `cfg(` and ends with `)`.
pub fn is_cfg_form(t: &str) -> (r: bool)
    ensures
        r == is_cfg_wrapped(t@),
{
    proof {
        reveal_strlit("cfg(");
    }
    let n = t.unicode_len();
    if n < 4 {
        return false;
    }
    let r = t.get_char(0) == 'c' && t.get_char(1) == 'f' && t.get_char(2) == 'g' && t.get_char(3)
        == '(' && t.get_char(n - 1) == ')';
    proof {
        let p = t@.subrange(0, 4);
        if r {
            assert(p =~= "cfg("@);
        } else if p == "cfg("@ {
            assert(p[0] == t@[0] && p[1] == t@[1] && p[2] == t@[2] && p[3] == t@[3]);
        }
    }
    r
}

/// A stateless handle through which directives are formatted.
///
/// It has no fields: any two handles are interchangeable.
#[derive(Debug, Clone, Copy)]
pub struct Rustc;

/// A handle that can stand wherever one is needed.
pub const RUSTC: Rustc = Rustc;

impl Rustc {
    /// A fresh handle.
    pub fn new() -> (r: Rustc) {
        Rustc
    }

    /// The line that carries `msg` inside the build tool's envelope.
    pub fn println_cargo(&self, msg: &str) -> (r: String)
        ensures
            r@ == build_line(msg@),
    {
        String::from_str("build-tool-namespace::").concat(msg)
    }

    /// The line that hands `msg` to the lint tool.
    pub fn println_clippy(&self, msg: &str) -> (r: String)
        ensures
            r@ == lint_line(msg@),
    {
        let out = String::from_str("lint-tool-").concat(msg);
        self.println_cargo(out.as_str())
    }

    /// The line that hands `msg` to the compiler.
    pub fn println_rustc(&self, msg: &str) -> (r: String)
        ensures
            r@ == compiler_line(msg@),
    {
        let out = String::from_str("compiler-").concat(msg);
        self.println_cargo(out.as_str())
    }

    /// The line that asks for a rebuild when the file at `path` changes;
    /// `path` is the path's display form.
    pub fn rerun_if_changed(&self, path: &str) -> (r: String)
        ensures
            r@ == rerun_line(path@),
    {
        let out = String::from_str("rerun-if-changed=").concat(path);
        self.println_cargo(out.as_str())
    }

    /// The line that declares `pred` valid configuration space, as it stands.
    ///
    /// Nothing checks that `pred` is a well-formed configuration predicate:
    /// that is up to the caller, and the build tool rejects a malformed one.
    pub fn rustc_check_cfg_raw(&self, pred: &str) -> (r: String)
        ensures
            r@ == raw_check_cfg_line(pred@),
    {
        let out = String::from_str("check-cfg=").concat(pred);
        self.println_rustc(out.as_str())
    }

    /// The line that declares `msg` valid configuration space, wrapped in
    /// `cfg(...)` unless it already is.
    pub fn rustc_check_cfg(&self, msg: &str) -> (r: String)
        ensures
            r@ == check_cfg_line(msg@),
    {
        if is_cfg_form(msg) {
            self.rustc_check_cfg_raw(msg)
        } else {
            let out = String::from_str("cfg(").concat(msg).concat(")");
            self.rustc_check_cfg_raw(out.as_str())
        }
    }

    /// The line that declares the configuration key `cfg` valid.
    pub fn rustc_check_cfg_wrap_key(&self, cfg: &str) -> (r: String)
        ensures
            r@ == raw_check_cfg_line("cfg("@ + cfg@ + ")"@),
    {
        let out = String::from_str("cfg(").concat(cfg).concat(")");
        proof {
            lemma_wrapped_is_cfg(cfg@);
        }
        self.rustc_check_cfg(out.as_str())
    }
    /// The line that declares the configuration key `cfg` valid with the
    /// single value `value`.
    pub fn rustc_check_cfg_wrap_key_value(&self, cfg: &str, value: &str) -> (r: String)
        ensures
            r@ == raw_check_cfg_line(key_value_pred(cfg@, value@)),
    {
        let out = String::from_str("cfg(").concat(cfg).concat(", values(\"").concat(value).concat(
            "\"))",
        );
        proof {
            lemma_key_value_pred_is_cfg(cfg@, value@);
        }
        self.rustc_check_cfg(out.as_str())
    }

    /// One line for each entry of `values`, in order, each declaring the
    /// configuration key `cfg` valid with that value.
    pub fn rustc_check_cfg_wrap_key_values(&self, cfg: &str, values: &[&str]) -> (r: Vec<String>)
        ensures
            r@.len() == values@.len(),
            forall|i: int|
                0 <= i < values@.len() ==> #[trigger] r@[i]@ == raw_check_cfg_line(
                    key_value_pred(cfg@, values@[i]@),
                ),
    {
        let mut lines: Vec<String> = Vec::new();
        let mut k: usize = 0;
        while k < values.len()
            invariant
                k <= values@.len(),
                lines@.len() == k,
                forall|i: int|
                    0 <= i < k ==> #[trigger] lines@[i]@ == raw_check_cfg_line(
                        key_value_pred(cfg@, values@[i]@),
                    ),
            decreases values@.len() - k,
        {
            let line = self.rustc_check_cfg_wrap_key_value(cfg, values[k]);
            lines.push(line);
            k = k + 1;
        }
        lines
    }

    /// The line that declares `msg` an active configuration.
    pub fn rustc_cfg(&self, msg: &str) -> (r: String)
        ensures
            r@ == cfg_line(msg@),
    {
        let out = String::from_str("cfg=").concat(msg);
        self.println_rustc(out.as_str())
    }

    /// The line that declares the configuration key `cfg` active.
    pub fn rustc_cfg_wrap_key(&self, cfg: &str) -> (r: String)
        ensures
            r@ == cfg_line(cfg@),
    {
        self.rustc_cfg(cfg)
    }

    /// The line that declares the configuration key `cfg` active with the
    /// value `value`.
    pub fn rustc_cfg_wrap_key_value(&self, cfg: &str, value: &str) -> (r: String)
        ensures
            r@ == cfg_key_value_line(cfg@, value@),
    {
        let out = String::from_str(cfg).concat("=\"").concat(value).concat("\"");
        self.rustc_cfg(out.as_str())
    }

    /// One line for each entry of `values`, in order, each declaring the
    /// configuration key `cfg` active with that value.
    pub fn rustc_cfg_wrap_key_values(&self, cfg: &str, values: &[&str]) -> (r: Vec<String>)
        ensures
            r@.len() == values@.len(),
            forall|i: int|
                0 <= i < values@.len() ==> #[trigger] r@[i]@ == cfg_key_value_line(
                    cfg@,
                    values@[i]@,
                ),
    {
        let mut lines: Vec<String> = Vec::new();
        let mut k: usize = 0;
        while k < values.len()
            invariant
                k <= values@.len(),
                lines@.len() == k,
                forall|i: int|
                    0 <= i < k ==> #[trigger] lines@[i]@ == cfg_key_value_line(
                        cfg@,
                        values@[i]@,
                    ),
            decreases values@.len() - k,
        {
            let line = self.rustc_cfg_wrap_key_value(cfg, values[k]);
            lines.push(line);
            k = k + 1;
        }
        lines
    }
}

} // verus!
