//! Startup configuration: the archive path, the listening port, the
//! configured path prefixes and the optional upstream base. Reading the
//! process's actual arguments is the caller's business; the defaulting and
//! the comma-splitting of the prefix list are verified here.

use vstd::prelude::*;

verus! {

/// The port served when none is configured.
pub const DEFAULT_PORT: u16 = 10320;

/// The fields of `s` separated by commas, in order. An empty text has one
/// field, the empty one.
pub open spec fn split_commas(s: Seq<char>) -> Seq<Seq<char>>
    decreases s.len(),
{
    if s.len() == 0 {
        seq![Seq::<char>::empty()]
    } else if s[0] == ',' {
        seq![Seq::<char>::empty()] + split_commas(s.drop_first())
    } else {
        let rest = split_commas(s.drop_first());
        seq![seq![s[0]] + rest[0]] + rest.drop_first()
    }
}

/// The split always yields at least one field.
pub proof fn lemma_split_commas_nonempty(s: Seq<char>)
    ensures
        split_commas(s).len() >= 1,
    decreases s.len(),
{
    if s.len() > 0 {
        lemma_split_commas_nonempty(s.drop_first());
    }
}

/// Splits a comma-separated prefix list into its fields.
pub fn split_prefixes(s: &str) -> (r: Vec<String>)
    ensures
        r.deep_view() == split_commas(s@),
    decreases s@.len(),
{
    let len = s.unicode_len();
    if len == 0 {
        let mut out: Vec<String> = Vec::new();
        out.push(String::new());
        proof {
            assert(out.deep_view() =~= split_commas(s@));
        }
        out
    } else if s.get_char(0) == ',' {
        let rest = split_prefixes(s.substring_char(1, len));
        let mut out: Vec<String> = Vec::new();
        out.push(String::new());
        let mut k: usize = 0;
        while k < rest.len()
            invariant
                k <= rest.len(),
                out.len() == k + 1,
                out.deep_view()[0] == Seq::<char>::empty(),
                forall|j: int| 0 <= j < k ==> out.deep_view()[j + 1] == rest.deep_view()[j],
            decreases rest.len() - k,
        {
            out.push(rest[k].clone());
            k = k + 1;
        }
        proof {
            assert(out.deep_view() =~= seq![Seq::<char>::empty()] + rest.deep_view());
            assert(s@.subrange(1, len as int) =~= s@.drop_first());
        }
        out
    } else {
        let rest = split_prefixes(s.substring_char(1, len));
        proof {
            assert(s@.subrange(1, len as int) =~= s@.drop_first());
            lemma_split_commas_nonempty(s@.drop_first());
        }
        let head = s.substring_char(0, 1);
        let mut first = String::from_str(head);
        first.append(rest[0].as_str());
        proof {
            assert(s@.subrange(0, 1) =~= seq![s@[0]]);
        }
        let mut out: Vec<String> = Vec::new();
        out.push(first);
        let mut k: usize = 1;
        while k < rest.len()
            invariant
                1 <= k <= rest.len(),
                out.len() == k,
                out.deep_view()[0] == seq![s@[0]] + rest.deep_view()[0],
                forall|j: int| 1 <= j < k ==> out.deep_view()[j] == rest.deep_view()[j],
            decreases rest.len() - k,
        {
            out.push(rest[k].clone());
            k = k + 1;
        }
        proof {
            assert(out.deep_view() =~= seq![seq![s@[0]] + rest.deep_view()[0]]
                + rest.deep_view().drop_first());
        }
        out
    }
}

/// Startup configuration, already read from the process's arguments.
pub struct Args {
    pub proxy_from: String,
    pub port: u16,
    pub prefixes: Vec<String>,
    pub base: Option<String>,
}

impl Args {
    /// Assembles the configuration from the raw argument values: the port
    /// defaults when absent, and the prefix list is the comma-split of the
    /// raw prefix text (of the empty text when absent).
    pub fn from_parts(
        proxy_from: String,
        port: Option<u16>,
        prefixes_raw: Option<String>,
        base: Option<String>,
    ) -> (r: Args)
        ensures
            r.proxy_from@ == proxy_from@,
            r.port == (match port {
                Some(p) => p,
                None => DEFAULT_PORT,
            }),
            r.prefixes.deep_view() == split_commas(
                match prefixes_raw {
                    Some(s) => s@,
                    None => Seq::<char>::empty(),
                },
            ),
            r.base == base,
    {
        let port_value = match port {
            Some(p) => p,
            None => DEFAULT_PORT,
        };
        let prefixes = match &prefixes_raw {
            Some(s) => split_prefixes(s.as_str()),
            None => split_prefixes(""),
        };
        proof {
            reveal_strlit("");
            assert(""@ =~= Seq::<char>::empty());
        }
        Args { proxy_from, port: port_value, prefixes, base }
    }
}

} // verus!
