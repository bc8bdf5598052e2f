//! Normalising the Unix-like adapter's listing output into records.
use vstd::prelude::*;
use crate::text::{join_spaced, lines, split_lines, split_words, views, words};

verus! {

/// One queued job as `lpstat -o` lists it.
#[derive(Clone, Debug)]
pub struct JobRecord {
    pub job_id: String,
    pub user: String,
    pub file: String,
    pub created: String,
    pub status: String,
}

pub struct JobView {
    pub job_id: Seq<char>,
    pub user: Seq<char>,
    pub file: Seq<char>,
    pub created: Seq<char>,
    pub status: Seq<char>,
}

impl View for JobRecord {
    type V = JobView;

    open spec fn view(&self) -> JobView {
        JobView {
            job_id: self.job_id@,
            user: self.user@,
            file: self.file@,
            created: self.created@,
            status: self.status@,
        }
    }
}

/// A job line's words: id, user, file, two words of timestamp, then the status.
pub open spec fn job_of_words(w: Seq<Seq<char>>) -> Option<JobView> {
    if w.len() >= 6 {
        Some(
            JobView {
                job_id: w[0],
                user: w[1],
                file: w[2],
                created: w[3] + seq![' '] + w[4],
                status: join_spaced(w.subrange(5, w.len() as int)),
            },
        )
    } else {
        None
    }
}

/// The records of the lines that parse, in order; the others are dropped.
pub open spec fn jobs_of_lines(ls: Seq<Seq<char>>) -> Seq<JobView>
    decreases ls.len(),
{
    if ls.len() == 0 {
        seq![]
    } else {
        match job_of_words(words(ls.last())) {
            Some(j) => jobs_of_lines(ls.drop_last()).push(j),
            None => jobs_of_lines(ls.drop_last()),
        }
    }
}

/// Lines are parsed independently of each other: the records of two runs of
/// lines, one after the other, are the records of each run in that order.
pub proof fn lemma_jobs_of_lines_concat(a: Seq<Seq<char>>, b: Seq<Seq<char>>)
    ensures
        jobs_of_lines(a + b) == jobs_of_lines(a) + jobs_of_lines(b),
    decreases b.len(),
{
    if b.len() == 0 {
        assert(a + b =~= a);
        assert(jobs_of_lines(a) + jobs_of_lines(b) =~= jobs_of_lines(a));
    } else {
        assert((a + b).drop_last() =~= a + b.drop_last());
        assert((a + b).last() == b.last());
        lemma_jobs_of_lines_concat(a, b.drop_last());
        match job_of_words(words(b.last())) {
            Some(j) => {
                assert(jobs_of_lines(a) + jobs_of_lines(b) =~= (jobs_of_lines(a)
                    + jobs_of_lines(b.drop_last())).push(j));
            },
            None => {},
        }
    }
}

/// Parsing tolerates a malformed line: of three lines whose middle one does not
/// parse, the result holds exactly the records of the first and the last.
pub proof fn lemma_malformed_line_skipped(l1: Seq<char>, l2: Seq<char>, l3: Seq<char>)
    requires
        job_of_words(words(l1)) is Some,
        job_of_words(words(l2)) is None,
        job_of_words(words(l3)) is Some,
    ensures
        jobs_of_lines(seq![l1, l2, l3]) == seq![
            job_of_words(words(l1)).unwrap(),
            job_of_words(words(l3)).unwrap(),
        ],
{
    let ls = seq![l1, l2, l3];
    assert(ls.drop_last() =~= seq![l1, l2]);
    assert(seq![l1, l2].drop_last() =~= seq![l1]);
    assert(seq![l1].drop_last() =~= Seq::<Seq<char>>::empty());
    assert(seq![l1].last() == l1);
    assert(seq![l1, l2].last() == l2);
    assert(ls.last() == l3);
    assert(jobs_of_lines(Seq::<Seq<char>>::empty()) == Seq::<JobView>::empty());
    assert(jobs_of_lines(seq![l1]) =~= seq![job_of_words(words(l1)).unwrap()]);
    assert(jobs_of_lines(seq![l1, l2]) == jobs_of_lines(seq![l1]));
    assert(jobs_of_lines(ls) =~= seq![
        job_of_words(words(l1)).unwrap(),
        job_of_words(words(l3)).unwrap(),
    ]);
}

pub open spec fn job_views(v: Seq<JobRecord>) -> Seq<JobView> {
    v.map_values(|j: JobRecord| j@)
}

/// `words` joined by single spaces, from index `from` on.
fn join_from(w: &Vec<String>, from: usize) -> (r: String)
    requires
        from < w@.len(),
    ensures
        r@ == join_spaced(views(w@).subrange(from as int, w@.len() as int)),
{
    let n = w.len();
    let mut acc = w[from].clone();
    let mut k: usize = from + 1;
    proof {
        assert(views(w@).subrange(from as int, k as int) =~= seq![w@[from as int]@]);
    }
    while k < w.len()
        invariant
            from < k <= w@.len(),
            acc@ == join_spaced(views(w@).subrange(from as int, k as int)),
        decreases w@.len() - k,
    {
        proof {
            reveal_strlit(" ");
        }
        acc = acc.concat(" ");
        acc = acc.concat(w[k].as_str());
        proof {
            let ws = views(w@).subrange(from as int, k + 1);
            assert(ws.drop_last() =~= views(w@).subrange(from as int, k as int));
            assert(ws.last() == w@[k as int]@);
        }
        k = k + 1;
    }
    acc
}

/// The record of one line of `lpstat -o` output, if it has at least six words.
pub fn job_from_line(line: &str) -> (r: Option<JobRecord>)
    ensures
        match r {
            Some(j) => job_of_words(words(line@)) == Some(j@),
            None => job_of_words(words(line@)) is None,
        },
{
    let w = split_words(line);
    if w.len() < 6 {
        return None;
    }
    proof {
        reveal_strlit(" ");
        assert(views(w@)[0] == w@[0]@);
        assert(views(w@)[1] == w@[1]@);
        assert(views(w@)[2] == w@[2]@);
        assert(views(w@)[3] == w@[3]@);
        assert(views(w@)[4] == w@[4]@);
    }
    let created = w[3].clone().concat(" ").concat(w[4].as_str());
    let status = join_from(&w, 5);
    let j = JobRecord {
        job_id: w[0].clone(),
        user: w[1].clone(),
        file: w[2].clone(),
        created,
        status,
    };
    proof {
        let ws = words(line@);
        assert(j.created@ =~= ws[3] + seq![' '] + ws[4]);
        assert(j.status@ == join_spaced(ws.subrange(5, ws.len() as int)));
        assert(j.job_id@ == ws[0]);
        assert(j@ == job_of_words(ws).unwrap());
    }
    Some(j)
}

/// Every line of `lpstat -o` output that holds at least six words, as a record;
/// other lines are skipped.
pub fn parse_jobs(output: &str) -> (r: Vec<JobRecord>)
    ensures
        job_views(r@) == jobs_of_lines(lines(output@)),
{
    let ls = split_lines(output);
    let mut out: Vec<JobRecord> = Vec::new();
    let mut k: usize = 0;
    proof {
        assert(views(ls@).subrange(0, 0) =~= Seq::<Seq<char>>::empty());
    }
    while k < ls.len()
        invariant
            k <= ls@.len(),
            views(ls@) == lines(output@),
            job_views(out@) == jobs_of_lines(views(ls@).subrange(0, k as int)),
        decreases ls@.len() - k,
    {
        let rec = job_from_line(ls[k].as_str());
        proof {
            let p = views(ls@).subrange(0, k + 1);
            assert(p.drop_last() =~= views(ls@).subrange(0, k as int));
            assert(p.last() == ls@[k as int]@);
        }
        if let Some(j) = rec {
            let ghost prev = out@;
            out.push(j);
            proof {
                assert(out@.drop_last() == prev);
                assert(job_views(out@) =~= job_views(prev).push(j@));
            }
        }
        k = k + 1;
    }
    proof {
        assert(views(ls@).subrange(0, ls@.len() as int) =~= views(ls@));
    }
    out
}

/// One printer as the Unix-like adapter lists it: its id and its display name
/// come from the same token.
#[derive(Clone, Debug)]
pub struct PrinterRecord {
    pub id: String,
    pub name: String,
}

/// The printer-name captures that the printer-state pattern finds in a text.
pub uninterp spec fn printer_tokens(s: Seq<char>) -> Seq<Seq<char>>;

/// A text with its Han characters taken out.
pub uninterp spec fn without_han(s: Seq<char>) -> Seq<char>;

/// Relies on regex::Regex::new and regex::Regex::captures_iter: the first
/// capture group of each match of the printer-state pattern of `lpstat -p`
/// output, in the order of the matches.
#[verifier::external_body]
fn capture_printer_tokens(s: &str) -> (r: Vec<String>)
    ensures
        views(r@) == printer_tokens(s@),
{
    let re = regex::Regex::new(r"打印机([\w\p{Han}_]+)(?:已停用|现在正在打印|已脱机|闲置)").unwrap();
    re.captures_iter(s).map(|c| c[1].to_string()).collect()
}

/// Relies on regex::Regex::new and regex::Regex::replace_all: every Han
/// character of `s` replaced by nothing; a text without any stays as it is.
#[verifier::external_body]
fn strip_han(s: &str) -> (r: String)
    ensures
        r@ == without_han(s@),
{
    let re = regex::Regex::new(r"[\p{Han}]").unwrap();
    re.replace_all(s, "").to_string()
}

/// A record for each printer name, in order, with the name as its id too.
pub fn printers_from_names(names: &Vec<String>) -> (r: Vec<PrinterRecord>)
    ensures
        r@.len() == names@.len(),
        forall|i: int|
            0 <= i < r@.len() ==> r@[i].id@ == names@[i]@ && r@[i].name@ == names@[i]@,
{
    let mut out: Vec<PrinterRecord> = Vec::new();
    let mut k: usize = 0;
    while k < names.len()
        invariant
            k <= names@.len(),
            out@.len() == k,
            forall|i: int|
                0 <= i < k ==> out@[i].id@ == names@[i]@ && out@[i].name@ == names@[i]@,
        decreases names@.len() - k,
    {
        out.push(PrinterRecord { id: names[k].clone(), name: names[k].clone() });
        k = k + 1;
    }
    out
}

/// The printers named in `lpstat -p` output: each name that the printer-state
/// pattern captures, with its Han characters taken out, as both id and name.
pub fn parse_printers(output: &str) -> (r: Vec<PrinterRecord>)
    ensures
        r@.len() == printer_tokens(output@).len(),
        forall|i: int|
            0 <= i < r@.len() ==> r@[i].id@ == without_han(printer_tokens(output@)[i])
                && r@[i].name@ == without_han(printer_tokens(output@)[i]),
{
    let tokens = capture_printer_tokens(output);
    let mut names: Vec<String> = Vec::new();
    let mut k: usize = 0;
    while k < tokens.len()
        invariant
            k <= tokens@.len(),
            views(tokens@) == printer_tokens(output@),
            names@.len() == k,
            forall|i: int| 0 <= i < k ==> names@[i]@ == without_han(tokens@[i]@),
        decreases tokens@.len() - k,
    {
        names.push(strip_han(tokens[k].as_str()));
        k = k + 1;
    }
    proof {
        assert forall|i: int| 0 <= i < tokens@.len() implies tokens@[i]@ == printer_tokens(
            output@,
        )[i] by {
            assert(views(tokens@)[i] == tokens@[i]@);
        }
    }
    let r = printers_from_names(&names);
    proof {
        assert forall|i: int| 0 <= i < r@.len() implies r@[i].id@ == without_han(
            printer_tokens(output@)[i],
        ) && r@[i].name@ == without_han(printer_tokens(output@)[i]) by {
            assert(names@[i]@ == without_han(tokens@[i]@));
            assert(tokens@[i]@ == printer_tokens(output@)[i]);
        }
    }
    r
}

} // verus!
