//! The paths that an archive leaves out.

use vstd::prelude::*;
use vstd::string::*;

use crate::text::{
    holds_text, join, join_text, lemma_with_all_unique_no_duplicates,
    lemma_with_unique_no_duplicates, prefixed, texts, with_all_unique, with_unique,
};

verus! {

/// An ordered list of exclusion rules in which no rule occurs twice. Its view
/// is the sequence of the rules' texts.
#[derive(Debug, Clone)]
pub struct ExcludeList {
    rules: Vec<String>,
}

impl View for ExcludeList {
    type V = Seq<Seq<char>>;

    closed spec fn view(&self) -> Seq<Seq<char>> {
        texts(self.rules@)
    }
}

/// The directories that hold run-time state rather than data, in the order
/// in which they are excluded.
pub open spec fn runtime_rules() -> Seq<Seq<char>> {
    seq![
        "/proc"@,
        "/sys"@,
        "/dev"@,
        "/run"@,
        "/tmp"@,
        "/mnt"@,
        "/media"@,
        "/var/run"@,
        "/var/lock"@,
        "/lost+found"@,
    ]
}

impl ExcludeList {
    /// No rule occurs twice. Every list made by this module is well-formed.
    pub open spec fn wf(&self) -> bool {
        self@.no_duplicates()
    }

    /// An empty list.
    pub fn new() -> (list: Self)
        ensures
            list@.len() == 0,
            list.wf(),
    {
        ExcludeList { rules: Vec::new() }
    }

    /// Adds `rule` at the end unless the list holds it already.
    pub fn push_unique(&mut self, rule: &str)
        ensures
            final(self)@ == with_unique(old(self)@, rule@),
            old(self).wf() ==> final(self).wf(),
    {
        proof {
            if self.wf() {
                lemma_with_unique_no_duplicates(self@, rule@);
            }
        }
        if !holds_text(&self.rules, rule) {
            self.rules.push(String::from_str(rule));
            assert(texts(self.rules@) =~= texts(old(self).rules@).push(rule@));
        }
    }

    /// Adds the run-time directories, each unless the list holds it already.
    pub fn add_default_runtime(&mut self)
        ensures
            final(self)@ == with_all_unique(old(self)@, runtime_rules()),
            old(self).wf() ==> final(self).wf(),
    {
        let ghost rules = runtime_rules();
        proof {
            assert(rules.take(0) =~= Seq::<Seq<char>>::empty());
            assert(self@ == with_all_unique(self@, rules.take(0)));
            if self.wf() {
                lemma_with_all_unique_no_duplicates(self@, rules);
            }
        }
        self.push_unique("/proc");
        proof {
            assert(rules.take(1).drop_last() =~= rules.take(0));
            assert(rules.take(1).last() == "/proc"@);
            assert(self@ == with_all_unique(old(self)@, rules.take(1)));
        }
        self.push_unique("/sys");
        proof {
            assert(rules.take(2).drop_last() =~= rules.take(1));
            assert(rules.take(2).last() == "/sys"@);
            assert(self@ == with_all_unique(old(self)@, rules.take(2)));
        }
        self.push_unique("/dev");
        proof {
            assert(rules.take(3).drop_last() =~= rules.take(2));
            assert(rules.take(3).last() == "/dev"@);
            assert(self@ == with_all_unique(old(self)@, rules.take(3)));
        }
        self.push_unique("/run");
        proof {
            assert(rules.take(4).drop_last() =~= rules.take(3));
            assert(rules.take(4).last() == "/run"@);
            assert(self@ == with_all_unique(old(self)@, rules.take(4)));
        }
        self.push_unique("/tmp");
        proof {
            assert(rules.take(5).drop_last() =~= rules.take(4));
            assert(rules.take(5).last() == "/tmp"@);
            assert(self@ == with_all_unique(old(self)@, rules.take(5)));
        }
        self.push_unique("/mnt");
        proof {
            assert(rules.take(6).drop_last() =~= rules.take(5));
            assert(rules.take(6).last() == "/mnt"@);
            assert(self@ == with_all_unique(old(self)@, rules.take(6)));
        }
        self.push_unique("/media");
        proof {
            assert(rules.take(7).drop_last() =~= rules.take(6));
            assert(rules.take(7).last() == "/media"@);
            assert(self@ == with_all_unique(old(self)@, rules.take(7)));
        }
        self.push_unique("/var/run");
        proof {
            assert(rules.take(8).drop_last() =~= rules.take(7));
            assert(rules.take(8).last() == "/var/run"@);
            assert(self@ == with_all_unique(old(self)@, rules.take(8)));
        }
        self.push_unique("/var/lock");
        proof {
            assert(rules.take(9).drop_last() =~= rules.take(8));
            assert(rules.take(9).last() == "/var/lock"@);
            assert(self@ == with_all_unique(old(self)@, rules.take(9)));
        }
        self.push_unique("/lost+found");
        proof {
            assert(rules.take(10).drop_last() =~= rules.take(9));
            assert(rules.take(10).last() == "/lost+found"@);
            assert(self@ == with_all_unique(old(self)@, rules.take(10)));
        }
        assert(rules.take(10) =~= rules);
    }

    /// Whether the list holds no rule.
    pub fn is_empty(&self) -> (r: bool)
        ensures
            r == (self@.len() == 0),
    {
        self.rules.len() == 0
    }

    /// The rules as `tar` options, `--exclude=<rule>` each, separated by
    /// single spaces.
    pub fn join_for_shell(&self) -> (out: String)
        ensures
            out@ == join_text(prefixed(self@, "--exclude="@), " "@),
    {
        join(&self.rules, "--exclude=", " ")
    }

    /// The rules as `tar` options, separated by single spaces.
    pub fn to_string(&self) -> (out: String)
        ensures
            out@ == join_text(prefixed(self@, "--exclude="@), " "@),
    {
        self.join_for_shell()
    }
}

impl Default for ExcludeList {
    fn default() -> (list: Self)
        ensures
            list@.len() == 0,
            list.wf(),
    {
        ExcludeList::new()
    }
}

} // verus!
