use vstd::prelude::*;
use vstd::string::StringExecFns;
use vstd::utf8::{valid_utf8, decode_utf8, encode_utf8};
use crate::strutil::{escape_chars, push_escaped, push_char, utf8_to_string};

verus! {

/// An outgoing store command: the command name followed by its arguments,
/// each an arbitrary byte string, in the order they will go on the wire.
pub struct Cmd {
    pub args: Vec<Vec<u8>>,
}

/// The byte strings of a command, in order; the first is the command name.
pub open spec fn args_view(c: Cmd) -> Seq<Seq<u8>> {
    c.args@.map_values(|a: Vec<u8>| a@)
}

/// How one argument appears in the audit text: text arguments pass through
/// as their characters, any other byte string through the reversible escape
/// rendering — never dropped, never replaced with a placeholder.
pub open spec fn arg_chars(a: Seq<u8>) -> Seq<char> {
    if valid_utf8(a) {
        decode_utf8(a)
    } else {
        escape_chars(a)
    }
}

/// The audit text of a whole command: the renderings of its name and
/// arguments, in order, joined by single spaces.
pub open spec fn render_chars(args: Seq<Seq<u8>>) -> Seq<char>
    decreases args.len(),
{
    if args.len() == 0 {
        Seq::empty()
    } else if args.len() == 1 {
        arg_chars(args[0])
    } else {
        arg_chars(args[0]) + seq![' '] + render_chars(args.drop_first())
    }
}

pub proof fn lemma_render_take_step(s: Seq<Seq<u8>>, i: int)
    requires
        0 <= i < s.len(),
    ensures
        render_chars(s.take(i + 1)) == if i == 0 {
            arg_chars(s[0])
        } else {
            render_chars(s.take(i)) + seq![' '] + arg_chars(s[i])
        },
    decreases i,
{
    if i == 0 {
        assert(s.take(1).len() == 1);
        assert(s.take(1)[0] == s[0]);
    } else {
        lemma_render_take_step(s.drop_first(), i - 1);
        assert(s.take(i + 1).drop_first() =~= s.drop_first().take(i));
        assert(s.take(i).drop_first() =~= s.drop_first().take(i - 1));
        assert(s.take(i + 1)[0] == s[0]);
        assert(s.take(i)[0] == s[0]);
        assert(s.drop_first().take(i)[i - 1] == s[i]);
        if i == 1 {
            assert(render_chars(s.take(2)) == arg_chars(s[0]) + seq![' '] + render_chars(
                s.drop_first().take(1),
            ));
            assert(render_chars(s.take(1)) =~= arg_chars(s[0]));
            assert(render_chars(s.take(i + 1)) =~= render_chars(s.take(i)) + seq![' ']
                + arg_chars(s[i]));
        } else {
            assert(render_chars(s.take(i + 1)) =~= render_chars(s.take(i)) + seq![' ']
                + arg_chars(s[i]));
        }
    }
}

/// The bytes of a text string, for use as a command argument.
pub fn str_to_bytes(s: &str) -> (r: Vec<u8>)
    ensures
        r@ == encode_utf8(s@),
{
    vstd::slice::slice_to_vec(s.as_bytes())
}

/// A command with the given name and no arguments yet.
pub fn cmd(name: &str) -> (r: Cmd)
    ensures
        args_view(r) =~= seq![encode_utf8(name@)],
{
    let mut args: Vec<Vec<u8>> = Vec::new();
    args.push(str_to_bytes(name));
    Cmd { args }
}

impl Cmd {
    /// Appends a text argument.
    pub fn arg_str(&mut self, s: &str)
        ensures
            args_view(*final(self)) =~= args_view(*old(self)).push(encode_utf8(s@)),
    {
        self.args.push(str_to_bytes(s));
    }

    /// Appends a raw byte-string argument.
    pub fn arg_bytes(&mut self, b: Vec<u8>)
        ensures
            args_view(*final(self)) =~= args_view(*old(self)).push(b@),
    {
        let ghost gb = b@;
        self.args.push(b);
    }

    /// Appends an integer argument, sent as its decimal text, as the wire
    /// protocol writes numbers.
    pub fn arg_i64(&mut self, n: i64)
        ensures
            args_view(*final(self)) =~= args_view(*old(self)).push(
                encode_utf8(crate::strutil::dec_chars_i64(n as int)),
            ),
    {
        let s = crate::strutil::i64_to_string(n);
        self.arg_str(s.as_str());
    }

    /// The audit text of this command.
    pub fn render(&self) -> (r: String)
        ensures
            r@ == render_chars(args_view(*self)),
    {
        let ghost gargs = args_view(*self);
        let mut out = String::new();
        let n = self.args.len();
        let mut i: usize = 0;
        while i < n
            invariant
                n == self.args@.len(),
                gargs == args_view(*self),
                gargs.len() == n,
                i <= n,
                out@ == render_chars(gargs.take(i as int)),
            decreases n - i,
        {
            if i > 0 {
                push_char(&mut out, ' ');
            }
            match utf8_to_string(&self.args[i]) {
                Some(s) => {
                    out.append(s.as_str());
                },
                None => {
                    push_escaped(&mut out, &self.args[i]);
                },
            }
            proof {
                assert(gargs[i as int] == self.args@[i as int]@);
                lemma_render_take_step(gargs, i as int);
            }
            i = i + 1;
        }
        proof {
            assert(gargs.take(gargs.len() as int) =~= gargs);
        }
        out
    }
}

}
