use vstd::prelude::*;

verus! {

/// The two boolean options an invocation may carry.
#[derive(Clone, Copy, PartialEq, Eq, Structural, Debug)]
pub enum FlagKind {
    Force,
    Media,
}

/// What can go wrong while the token list is scanned.  Errors accumulate:
/// a later token is still looked at after an earlier one was refused.
#[derive(Clone, Copy, PartialEq, Eq, Structural, Debug)]
pub enum ClassifyError {
    /// A flag token was seen although its flag was already set.
    FlagReused(FlagKind),
    /// A token arrived after both the URL and the output slot were filled.
    BadArguments,
    /// A token stood past the fourth position.
    TooManyArguments,
    /// No token filled the URL slot.
    MissingUrl,
}

/// The classified meaning of a token list, over mathematical values.
pub ghost struct Intent {
    pub url: Option<Seq<char>>,
    pub output: Option<Seq<char>>,
    pub force: bool,
    pub media: bool,
    pub errors: Seq<ClassifyError>,
}

/// The classified meaning of a token list: which token is the URL, which
/// the output location, which flags are set, and whether the invocation
/// was refused.  Once built it is immutable.
pub struct ClassifiedIntent {
    pub url: Option<String>,
    pub output: Option<String>,
    pub force: bool,
    pub media: bool,
    pub rejected: bool,
    pub errors: Vec<ClassifyError>,
}

impl View for ClassifiedIntent {
    type V = Intent;

    open spec fn view(&self) -> Intent {
        Intent {
            url: self.url.deep_view(),
            output: self.output.deep_view(),
            force: self.force,
            media: self.media,
            errors: self.errors@,
        }
    }
}

/// Whether `t` spells the force flag.
pub open spec fn is_force_token(t: Seq<char>) -> bool {
    t == "-f"@ || t == "--force"@
}

/// Whether `t` spells the media flag.
pub open spec fn is_media_token(t: Seq<char>) -> bool {
    t == "-m"@ || t == "--media"@
}

/// The state the scan starts from: nothing filled, nothing refused.
pub open spec fn init_intent() -> Intent {
    Intent {
        url: None,
        output: None,
        force: false,
        media: false,
        errors: Seq::empty(),
    }
}

/// One step of the scan: how the token at position `pos` (counted from
/// zero over the whole invocation) changes the intent.  A flag token sets
/// its flag, or is refused when the flag is already set; any other token
/// fills the first unfilled slot, URL before output; a token past the
/// fourth position is refused unread.
pub open spec fn classify_step(s: Intent, pos: int, t: Seq<char>) -> Intent {
    if pos >= 4 {
        Intent { errors: s.errors.push(ClassifyError::TooManyArguments), ..s }
    } else if is_force_token(t) {
        if s.force {
            Intent { errors: s.errors.push(ClassifyError::FlagReused(FlagKind::Force)), ..s }
        } else {
            Intent { force: true, ..s }
        }
    } else if is_media_token(t) {
        if s.media {
            Intent { errors: s.errors.push(ClassifyError::FlagReused(FlagKind::Media)), ..s }
        } else {
            Intent { media: true, ..s }
        }
    } else if s.url is None {
        Intent { url: Some(t), ..s }
    } else if s.output is None {
        Intent { output: Some(t), ..s }
    } else {
        Intent { errors: s.errors.push(ClassifyError::BadArguments), ..s }
    }
}

/// The scan folded over a token list, starting at state `s` and position `pos`.
pub open spec fn classify_scan(s: Intent, pos: int, toks: Seq<Seq<char>>) -> Intent
    decreases toks.len(),
{
    if toks.len() == 0 {
        s
    } else {
        classify_scan(classify_step(s, pos, toks.first()), pos + 1, toks.drop_first())
    }
}

/// The check made after the scan: an intent without a URL is refused.
pub open spec fn classify_finish(s: Intent) -> Intent {
    if s.url is None {
        Intent { errors: s.errors.push(ClassifyError::MissingUrl), ..s }
    } else {
        s
    }
}

/// What classification makes of a whole token list.
pub open spec fn spec_classify(toks: Seq<Seq<char>>) -> Intent {
    classify_finish(classify_scan(init_intent(), 0, toks))
}

proof fn lemma_scan_snoc(s: Intent, pos: int, toks: Seq<Seq<char>>, t: Seq<char>)
    ensures
        classify_scan(s, pos, toks.push(t)) == classify_step(
            classify_scan(s, pos, toks),
            pos + toks.len(),
            t,
        ),
    decreases toks.len(),
{
    if toks.len() == 0 {
        assert(toks.push(t).drop_first() =~= Seq::<Seq<char>>::empty());
        assert(classify_scan(s, pos, toks.push(t)) == classify_step(s, pos, t));
    } else {
        assert(toks.push(t).first() == toks.first());
        assert(toks.push(t).drop_first() =~= toks.drop_first().push(t));
        lemma_scan_snoc(classify_step(s, pos, toks.first()), pos + 1, toks.drop_first(), t);
    }
}

/// How many tokens of `toks` spell the force flag.
pub open spec fn force_count(toks: Seq<Seq<char>>) -> nat
    decreases toks.len(),
{
    if toks.len() == 0 {
        0
    } else {
        (if is_force_token(toks.first()) {
            1nat
        } else {
            0nat
        }) + force_count(toks.drop_first())
    }
}

/// How many tokens of `toks` spell the media flag.
pub open spec fn media_count(toks: Seq<Seq<char>>) -> nat
    decreases toks.len(),
{
    if toks.len() == 0 {
        0
    } else {
        (if is_media_token(toks.first()) {
            1nat
        } else {
            0nat
        }) + media_count(toks.drop_first())
    }
}

/// The tokens of `toks` that spell no flag, in their order.
pub open spec fn nonflag_tokens(toks: Seq<Seq<char>>) -> Seq<Seq<char>>
    decreases toks.len(),
{
    if toks.len() == 0 {
        Seq::empty()
    } else if is_force_token(toks.first()) || is_media_token(toks.first()) {
        nonflag_tokens(toks.drop_first())
    } else {
        seq![toks.first()] + nonflag_tokens(toks.drop_first())
    }
}

proof fn lemma_flag_tokens_disjoint(t: Seq<char>)
    ensures
        !(is_force_token(t) && is_media_token(t)),
{
    reveal_strlit("-f");
    reveal_strlit("--force");
    reveal_strlit("-m");
    reveal_strlit("--media");
    if is_force_token(t) && is_media_token(t) {
        assert("-f"@.len() == 2);
        assert("--force"@.len() == 7);
        assert("-m"@.len() == 2);
        assert("--media"@.len() == 7);
        assert("-f"@[1] == 'f');
        assert("-m"@[1] == 'm');
        assert("--force"@[2] == 'f');
        assert("--media"@[2] == 'm');
        assert(false);
    }
}

proof fn lemma_token_count(toks: Seq<Seq<char>>)
    ensures
        toks.len() == force_count(toks) + media_count(toks) + nonflag_tokens(toks).len(),
    decreases toks.len(),
{
    if toks.len() > 0 {
        lemma_flag_tokens_disjoint(toks.first());
        lemma_token_count(toks.drop_first());
    }
}

/// How many slots are still unfilled in `s`.
pub open spec fn free_slots(s: Intent) -> int {
    if s.url is None {
        2
    } else if s.output is None {
        1
    } else {
        0
    }
}

/// The slots after the non-flag tokens `nf` have been dealt out:
/// URL first, output second.
pub open spec fn fill_slots(
    url: Option<Seq<char>>,
    output: Option<Seq<char>>,
    nf: Seq<Seq<char>>,
) -> (Option<Seq<char>>, Option<Seq<char>>)
    decreases nf.len(),
{
    if nf.len() == 0 {
        (url, output)
    } else if url is None {
        fill_slots(Some(nf.first()), output, nf.drop_first())
    } else if output is None {
        fill_slots(url, Some(nf.first()), nf.drop_first())
    } else {
        (url, output)
    }
}

proof fn lemma_scan_closed_form(s: Intent, pos: int, toks: Seq<Seq<char>>)
    requires
        0 <= pos,
        pos + toks.len() <= 4,
        force_count(toks) + (if s.force {
            1int
        } else {
            0int
        }) <= 1,
        media_count(toks) + (if s.media {
            1int
        } else {
            0int
        }) <= 1,
        nonflag_tokens(toks).len() <= free_slots(s),
        s.url is None ==> s.output is None,
    ensures
        classify_scan(s, pos, toks) == (Intent {
            url: fill_slots(s.url, s.output, nonflag_tokens(toks)).0,
            output: fill_slots(s.url, s.output, nonflag_tokens(toks)).1,
            force: s.force || force_count(toks) > 0,
            media: s.media || media_count(toks) > 0,
            errors: s.errors,
        }),
    decreases toks.len(),
{
    if toks.len() > 0 {
        let t = toks.first();
        let rest = toks.drop_first();
        lemma_flag_tokens_disjoint(t);
        let s2 = classify_step(s, pos, t);
        if is_force_token(t) {
            lemma_scan_closed_form(s2, pos + 1, rest);
        } else if is_media_token(t) {
            lemma_scan_closed_form(s2, pos + 1, rest);
        } else {
            let nf = nonflag_tokens(toks);
            assert(nf.drop_first() =~= nonflag_tokens(rest));
            lemma_scan_closed_form(s2, pos + 1, rest);
            assert(fill_slots(s.url, s.output, nf) == fill_slots(s2.url, s2.output, nonflag_tokens(rest)));
        }
    }
}

/// Classification fills the slots deterministically, whatever positions
/// the flags take: with each flag given at most once and at most two
/// non-flag tokens, the URL slot holds the first non-flag token, the
/// output slot the second, each flag is set exactly when its token
/// occurs, and the intent is refused exactly when no URL token came.
pub proof fn lemma_classify_closed_form(toks: Seq<Seq<char>>)
    requires
        force_count(toks) <= 1,
        media_count(toks) <= 1,
        nonflag_tokens(toks).len() <= 2,
    ensures
        spec_classify(toks) == (Intent {
            url: if nonflag_tokens(toks).len() >= 1 {
                Some(nonflag_tokens(toks)[0])
            } else {
                None
            },
            output: if nonflag_tokens(toks).len() >= 2 {
                Some(nonflag_tokens(toks)[1])
            } else {
                None
            },
            force: force_count(toks) > 0,
            media: media_count(toks) > 0,
            errors: if nonflag_tokens(toks).len() == 0 {
                seq![ClassifyError::MissingUrl]
            } else {
                Seq::<ClassifyError>::empty()
            },
        }),
{
    lemma_token_count(toks);
    lemma_scan_closed_form(init_intent(), 0, toks);
    let nf = nonflag_tokens(toks);
    if nf.len() == 1 {
        assert(fill_slots(None, None, nf) == fill_slots(Some(nf.first()), None, nf.drop_first()));
        assert(nf.drop_first().len() == 0);
    } else if nf.len() == 2 {
        assert(fill_slots(None, None, nf) == fill_slots(Some(nf.first()), None, nf.drop_first()));
        assert(fill_slots(Some(nf.first()), None, nf.drop_first()) == fill_slots(
            Some(nf.first()),
            Some(nf.drop_first().first()),
            nf.drop_first().drop_first(),
        ));
        assert(nf.drop_first().drop_first().len() == 0);
        assert(nf.drop_first().first() == nf[1]);
    }
}

/// Flag position does not matter: two token lists with the same flag
/// occurrences and the same non-flag tokens in the same relative order
/// yield the identical classified intent.
pub proof fn lemma_classify_flag_position_irrelevant(toks1: Seq<Seq<char>>, toks2: Seq<Seq<char>>)
    requires
        force_count(toks1) <= 1,
        media_count(toks1) <= 1,
        nonflag_tokens(toks1).len() <= 2,
        force_count(toks2) == force_count(toks1),
        media_count(toks2) == media_count(toks1),
        nonflag_tokens(toks2) == nonflag_tokens(toks1),
    ensures
        spec_classify(toks1) == spec_classify(toks2),
{
    lemma_classify_closed_form(toks1);
    lemma_classify_closed_form(toks2);
}

proof fn lemma_scan_keeps_error(s: Intent, pos: int, toks: Seq<Seq<char>>, e: ClassifyError)
    requires
        s.errors.contains(e),
    ensures
        classify_scan(s, pos, toks).errors.contains(e),
    decreases toks.len(),
{
    if toks.len() > 0 {
        let s2 = classify_step(s, pos, toks.first());
        let i = choose|i: int| 0 <= i < s.errors.len() && s.errors[i] == e;
        assert(s2.errors[i] == e);
        lemma_scan_keeps_error(s2, pos + 1, toks.drop_first(), e);
    }
}

proof fn lemma_scan_flag_reused(s: Intent, pos: int, toks: Seq<Seq<char>>, kind: FlagKind)
    requires
        0 <= pos,
        pos + toks.len() <= 4,
        kind is Force ==> force_count(toks) + (if s.force {
            1int
        } else {
            0int
        }) >= 2,
        kind is Media ==> media_count(toks) + (if s.media {
            1int
        } else {
            0int
        }) >= 2,
    ensures
        classify_scan(s, pos, toks).errors.contains(ClassifyError::FlagReused(kind)),
    decreases toks.len(),
{
    if toks.len() == 0 {
        assert(force_count(toks) == 0);
        assert(media_count(toks) == 0);
        assert(false);
    } else {
        let t = toks.first();
        let rest = toks.drop_first();
        lemma_flag_tokens_disjoint(t);
        let s2 = classify_step(s, pos, t);
        let e = ClassifyError::FlagReused(kind);
        if kind is Force {
            if is_force_token(t) && s.force {
                assert(s2.errors[s.errors.len() as int] == e);
                lemma_scan_keeps_error(s2, pos + 1, rest, e);
            } else {
                lemma_scan_flag_reused(s2, pos + 1, rest, kind);
            }
        } else {
            if is_media_token(t) && s.media {
                assert(s2.errors[s.errors.len() as int] == e);
                lemma_scan_keeps_error(s2, pos + 1, rest, e);
            } else {
                lemma_scan_flag_reused(s2, pos + 1, rest, kind);
            }
        }
    }
}

/// A flag token repeated anywhere among at most four tokens leaves the
/// matching reuse diagnostic in the intent, which is therefore refused.
pub proof fn lemma_flag_reused_rejected(toks: Seq<Seq<char>>, kind: FlagKind)
    requires
        toks.len() <= 4,
        kind is Force ==> force_count(toks) >= 2,
        kind is Media ==> media_count(toks) >= 2,
    ensures
        spec_classify(toks).errors.contains(ClassifyError::FlagReused(kind)),
        spec_classify(toks).errors.len() > 0,
{
    lemma_scan_flag_reused(init_intent(), 0, toks, kind);
    let scanned = classify_scan(init_intent(), 0, toks);
    let e = ClassifyError::FlagReused(kind);
    let i = choose|i: int| 0 <= i < scanned.errors.len() && scanned.errors[i] == e;
    assert(spec_classify(toks).errors[i] == e);
}

proof fn lemma_scan_too_many(s: Intent, pos: int, toks: Seq<Seq<char>>)
    requires
        0 <= pos,
        toks.len() >= 1,
        pos + toks.len() >= 5,
    ensures
        classify_scan(s, pos, toks).errors.contains(ClassifyError::TooManyArguments),
    decreases toks.len(),
{
    let t = toks.first();
    let rest = toks.drop_first();
    let s2 = classify_step(s, pos, t);
    if pos >= 4 {
        assert(s2.errors[s.errors.len() as int] == ClassifyError::TooManyArguments);
        lemma_scan_keeps_error(s2, pos + 1, rest, ClassifyError::TooManyArguments);
    } else {
        lemma_scan_too_many(s2, pos + 1, rest);
    }
}

/// A repeated flag refuses the invocation whatever its length: among at
/// most four tokens the matching reuse diagnostic fires, and a longer
/// token list is refused for its length alone.
pub proof fn lemma_flag_reused_always_rejected(toks: Seq<Seq<char>>, kind: FlagKind)
    requires
        kind is Force ==> force_count(toks) >= 2,
        kind is Media ==> media_count(toks) >= 2,
    ensures
        spec_classify(toks).errors.len() > 0,
{
    if toks.len() <= 4 {
        lemma_flag_reused_rejected(toks, kind);
    } else {
        lemma_scan_too_many(init_intent(), 0, toks);
        let scanned = classify_scan(init_intent(), 0, toks);
        let e = ClassifyError::TooManyArguments;
        let i = choose|i: int| 0 <= i < scanned.errors.len() && scanned.errors[i] == e;
        assert(spec_classify(toks).errors[i] == e);
    }
}

proof fn lemma_scan_url_stays_none(s: Intent, pos: int, toks: Seq<Seq<char>>)
    requires
        nonflag_tokens(toks).len() == 0,
        s.url is None,
    ensures
        classify_scan(s, pos, toks).url is None,
    decreases toks.len(),
{
    if toks.len() > 0 {
        lemma_scan_url_stays_none(classify_step(s, pos, toks.first()), pos + 1, toks.drop_first());
    }
}

/// A token list without a single non-flag token never fills the URL slot,
/// so the intent carries the missing-URL diagnostic and is refused.
pub proof fn lemma_no_url_rejected(toks: Seq<Seq<char>>)
    requires
        nonflag_tokens(toks).len() == 0,
    ensures
        spec_classify(toks).errors.contains(ClassifyError::MissingUrl),
        spec_classify(toks).errors.len() > 0,
{
    lemma_scan_url_stays_none(init_intent(), 0, toks);
    let scanned = classify_scan(init_intent(), 0, toks);
    assert(spec_classify(toks).errors[scanned.errors.len() as int] == ClassifyError::MissingUrl);
}

fn is_force_tok(t: &String) -> (b: bool)
    ensures
        b == is_force_token(t@),
{
    let short = String::from_str("-f");
    let long = String::from_str("--force");
    *t == short || *t == long
}

fn is_media_tok(t: &String) -> (b: bool)
    ensures
        b == is_media_token(t@),
{
    let short = String::from_str("-m");
    let long = String::from_str("--media");
    *t == short || *t == long
}

/// Scans a whole token list and returns its classified intent.
pub fn classify_tokens(tokens: &Vec<String>) -> (r: ClassifiedIntent)
    ensures
        r@ == spec_classify(tokens.deep_view()),
        r.rejected == (r@.errors.len() > 0),
{
    let ghost toks = tokens.deep_view();
    let mut url: Option<String> = None;
    let mut output: Option<String> = None;
    let mut force = false;
    let mut media = false;
    let mut errors: Vec<ClassifyError> = Vec::new();
    let mut i: usize = 0;
    proof {
        assert(toks.take(0) =~= Seq::<Seq<char>>::empty());
    }
    while i < tokens.len()
        invariant
            i <= tokens.len(),
            toks == tokens.deep_view(),
            toks.len() == tokens.len(),
            (Intent {
                url: url.deep_view(),
                output: output.deep_view(),
                force: force,
                media: media,
                errors: errors@,
            }) == classify_scan(init_intent(), 0, toks.take(i as int)),
        decreases tokens.len() - i,
    {
        let ghost pre = classify_scan(init_intent(), 0, toks.take(i as int));
        proof {
            assert(toks.take(i + 1) =~= toks.take(i as int).push(toks[i as int]));
            lemma_scan_snoc(init_intent(), 0, toks.take(i as int), toks[i as int]);
            assert(toks.take(i as int).len() == i as int);
        }
        let t = &tokens[i];
        if i >= 4 {
            errors.push(ClassifyError::TooManyArguments);
        } else if is_force_tok(t) {
            if force {
                errors.push(ClassifyError::FlagReused(FlagKind::Force));
            } else {
                force = true;
            }
        } else if is_media_tok(t) {
            if media {
                errors.push(ClassifyError::FlagReused(FlagKind::Media));
            } else {
                media = true;
            }
        } else if url.is_none() {
            url = Some(t.clone());
        } else if output.is_none() {
            output = Some(t.clone());
        } else {
            errors.push(ClassifyError::BadArguments);
        }
        i = i + 1;
    }
    proof {
        assert(toks.take(i as int) =~= toks);
    }
    if url.is_none() {
        errors.push(ClassifyError::MissingUrl);
    }
    let rejected = errors.len() > 0;
    ClassifiedIntent { url, output, force, media, rejected, errors }
}

/// Classifies the leading token together with the trailing ones; the
/// leading token is position zero of the same scan.
pub fn classify(leading: &String, rest: &Vec<String>) -> (r: ClassifiedIntent)
    ensures
        r@ == spec_classify(seq![leading@] + rest.deep_view()),
        r.rejected == (r@.errors.len() > 0),
{
    let mut tokens: Vec<String> = Vec::new();
    tokens.push(leading.clone());
    let mut i: usize = 0;
    while i < rest.len()
        invariant
            i <= rest.len(),
            tokens.deep_view() == seq![leading@] + rest.deep_view().take(i as int),
        decreases rest.len() - i,
    {
        tokens.push(rest[i].clone());
        proof {
            assert(seq![leading@] + rest.deep_view().take(i + 1) =~= (seq![leading@]
                + rest.deep_view().take(i as int)).push(rest.deep_view()[i as int]));
        }
        i = i + 1;
    }
    proof {
        assert(rest.deep_view().take(i as int) =~= rest.deep_view());
    }
    classify_tokens(&tokens)
}

/// What a whole invocation asks for, decided by its leading token before
/// any classification.
pub enum Invocation {
    ShowHelp,
    ShowVersion,
    RunUpdate,
    Proceed(ClassifiedIntent),
}

/// Whether `t` spells the version request.
pub open spec fn is_version_token(t: Seq<char>) -> bool {
    t == "-v"@ || t == "--version"@
}

/// Whether `t` spells the help request.
pub open spec fn is_help_token(t: Seq<char>) -> bool {
    t == "-h"@ || t == "--help"@
}

/// Whether `t` spells the update request.
pub open spec fn is_update_token(t: Seq<char>) -> bool {
    t == "-u"@ || t == "--update"@
}

/// Routes an invocation: an empty leading token asks for help, the
/// dedicated spellings short-circuit to their actions, and any other
/// leading token starts classification of the whole token list.
pub fn route(leading: &String, rest: &Vec<String>) -> (r: Invocation)
    ensures
        leading@.len() == 0 ==> r is ShowHelp,
        leading@.len() > 0 && is_version_token(leading@) ==> r is ShowVersion,
        leading@.len() > 0 && !is_version_token(leading@) && is_help_token(leading@) ==> r is ShowHelp,
        leading@.len() > 0 && !is_version_token(leading@) && !is_help_token(leading@)
            && is_update_token(leading@) ==> r is RunUpdate,
        leading@.len() > 0 && !is_version_token(leading@) && !is_help_token(leading@)
            && !is_update_token(leading@) ==> (r matches Invocation::Proceed(i) && i@
            == spec_classify(seq![leading@] + rest.deep_view()) && i.rejected == (i@.errors.len()
            > 0)),
{
    if leading.as_str().unicode_len() == 0 {
        Invocation::ShowHelp
    } else if *leading == String::from_str("-v") || *leading == String::from_str("--version") {
        Invocation::ShowVersion
    } else if *leading == String::from_str("-h") || *leading == String::from_str("--help") {
        Invocation::ShowHelp
    } else if *leading == String::from_str("-u") || *leading == String::from_str("--update") {
        Invocation::RunUpdate
    } else {
        Invocation::Proceed(classify(leading, rest))
    }
}

} // verus!
