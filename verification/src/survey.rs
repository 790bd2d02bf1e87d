use vstd::prelude::*;

use crate::ids::{uuid_simple, uuid_simple_string};
use crate::numbers::{i32_of_text, int_text, parse_i32, push_int};
use crate::receiver::{clamp, ReceiverService};
use crate::rules::patterns::opt_text;
use crate::text::{chars_are, chars_of, join2, push_char, replace_all, replace_chars, string_of};

verus! {

broadcast use vstd::string::group_string_axioms;

/// Why a survey link or submission is refused.
#[derive(Clone, Copy, Debug, PartialEq, Eq, Structural)]
pub enum SurveyRefusal {
    LinkExpired,
    SurveyInactive,
    AlreadyCompleted,
    DraftOfCompleted,
    SurveyExpired,
    SubmissionCompleted,
}

/// `s` without all its trailing `c`.
pub open spec fn strip_trailing(s: Seq<char>, c: char) -> Seq<char>
    decreases s.len(),
{
    if s.len() > 0 && s.last() == c {
        strip_trailing(s.drop_last(), c)
    } else {
        s
    }
}

/// The public address of a survey link: the base address without trailing `/`, then
/// `/survey/` and the token.
pub open spec fn public_url_text(base: Option<Seq<char>>, token: Seq<char>) -> Seq<char> {
    strip_trailing(
        match base {
            Some(b) => b,
            None => Seq::empty(),
        },
        '/',
    ) + "/survey/"@ + token
}

/// Whether a token status is still open for answers.
pub open spec fn is_open_status(status: Seq<char>) -> bool {
    status == "pending"@ || status == "in_progress"@
}

/// The decision on opening a public survey link: an expired link is refused first, then
/// an inactive survey, then a completed one that may not be answered again.
pub open spec fn public_access(
    status: Seq<char>,
    expires_at: i64,
    now: i64,
    survey_active: bool,
    allow_reentry_override: i32,
) -> Result<(), SurveyRefusal> {
    if expires_at < now {
        Err(SurveyRefusal::LinkExpired)
    } else if !survey_active {
        Err(SurveyRefusal::SurveyInactive)
    } else if status == "completed"@ && allow_reentry_override == 0 {
        Err(SurveyRefusal::AlreadyCompleted)
    } else {
        Ok(())
    }
}

/// A question and the answer given to it, for the ticket summary.
#[derive(Clone, Debug)]
pub struct AnsweredQuestion {
    pub name: String,
    pub question_type: String,
    pub value: String,
}

/// `t` repeated `n` times.
pub open spec fn repeat(t: Seq<char>, n: nat) -> Seq<char>
    decreases n,
{
    if n == 0 {
        Seq::empty()
    } else {
        repeat(t, (n - 1) as nat) + t
    }
}

/// The summary line of an answer, if it gets one: a rating shows as stars (held within 1
/// to 5) and `n/5`, an NPS answer as `n/10`, any other answer as given; a rating that is
/// not a number gets no line.
pub open spec fn answer_line(a: AnsweredQuestion) -> Option<Seq<char>> {
    if a.question_type@ == "rating5"@ {
        match i32_of_text(a.value@) {
            Some(n) => Some(
                "* **"@ + a.name@ + "**: "@ + repeat("⭐"@, clamp(n as int, 1, 5) as nat) + " ("@
                    + int_text(n as int) + "/5)"@,
            ),
            None => None,
        }
    } else if a.question_type@ == "nps"@ {
        Some("* **"@ + a.name@ + "**: **"@ + a.value@ + "/10**"@)
    } else {
        Some("* **"@ + a.name@ + "**: "@ + a.value@)
    }
}

/// The summary lines of the first `n` answers.
pub open spec fn answer_lines(answers: Seq<AnsweredQuestion>, n: int) -> Seq<Seq<char>>
    decreases n,
{
    if n <= 0 {
        Seq::empty()
    } else {
        match answer_line(answers[n - 1]) {
            Some(l) => answer_lines(answers, n - 1).push(l),
            None => answer_lines(answers, n - 1),
        }
    }
}

/// The rating of the last of the first `n` answers that is a rating and a number.
pub open spec fn overall_rating(answers: Seq<AnsweredQuestion>, n: int) -> Option<i32>
    decreases n,
{
    if n <= 0 {
        None
    } else if answers[n - 1].question_type@ == "rating5"@ && i32_of_text(answers[n - 1].value@) is Some {
        i32_of_text(answers[n - 1].value@)
    } else {
        overall_rating(answers, n - 1)
    }
}

/// Lines joined with a line break between each two.
pub open spec fn join_lines(lines: Seq<Seq<char>>) -> Seq<char>
    decreases lines.len(),
{
    if lines.len() == 0 {
        Seq::empty()
    } else if lines.len() == 1 {
        lines[0]
    } else {
        join_lines(lines.drop_last()) + seq!['\n'] + lines.last()
    }
}

/// The ticket note recording a survey's answers: a header with the overall rating as
/// stars and `n/5` (or "Completada" when there is none), the lines, and a closing remark.
pub open spec fn satisfaction_note(rating: Option<i32>, lines: Seq<Seq<char>>) -> Seq<char> {
    let header = match rating {
        Some(r) => repeat("⭐"@, r as nat) + " ("@ + int_text(r as int) + "/5)"@,
        None => "Completada"@,
    };
    "📋 **Encuesta de Satisfacción Recibida**: "@ + header + "\n\n"@ + join_lines(lines)
        + "\n\n*Registrado de forma automatizada por el sistema de encuestas.*"@
}

/// How ratings spread over 1 to 5 stars: the count of each and the total.
#[derive(Clone, Debug)]
pub struct CsatTally {
    pub counts: Vec<i64>,
    pub total: i64,
}

/// How NPS answers spread: promoters (9 and 10), passives (7 and 8), detractors (0 to 6).
#[derive(Clone, Debug)]
pub struct NpsTally {
    pub promoters: i64,
    pub passives: i64,
    pub detractors: i64,
    pub total: i64,
}

/// The sum of the counts of the first `n` rows whose value lies in `lo..=hi`.
pub open spec fn in_range_total(rows: Seq<(Option<i32>, i64)>, lo: int, hi: int, n: int) -> int
    decreases n,
{
    if n <= 0 {
        0
    } else {
        in_range_total(rows, lo, hi, n - 1) + match rows[n - 1].0 {
            Some(v) => if lo <= v <= hi {
                rows[n - 1].1 as int
            } else {
                0
            },
            None => 0,
        }
    }
}

/// The count of the last of the first `n` rows for value `v`, 0 when there is none.
pub open spec fn count_for(rows: Seq<(Option<i32>, i64)>, v: int, n: int) -> int
    decreases n,
{
    if n <= 0 {
        0
    } else if rows[n - 1].0 == Some(v as i32) {
        rows[n - 1].1 as int
    } else {
        count_for(rows, v, n - 1)
    }
}

/// Whether every running total of the counts of the rows in `lo..=hi` fits an `i64`.
pub open spec fn totals_fit(rows: Seq<(Option<i32>, i64)>, lo: int, hi: int) -> bool {
    forall|k: int|
        0 <= k <= rows.len() ==> i64::MIN <= #[trigger] in_range_total(rows, lo, hi, k) <= i64::MAX
}

/// Surveys, their links and their results.
pub struct SurveyService;

impl SurveyService {
    /// The public address of a survey link.
    pub fn public_url(base: Option<&str>, token: &str) -> (r: String)
        ensures
            r@ == public_url_text(crate::rules::engine::opt_str(base), token@),
    {
        let b: Vec<char> = match base {
            Some(t) => chars_of(t),
            None => Vec::new(),
        };
        let mut k: usize = b.len();
        assert(b@.take(b.len() as int) =~= b@);
        while k > 0 && b[k - 1] == '/'
            invariant
                k <= b.len(),
                strip_trailing(b@.take(k as int), '/') == strip_trailing(b@, '/'),
            decreases k,
        {
            assert(b@.take(k as int).drop_last() =~= b@.take(k - 1));
            k = k - 1;
        }
        proof {
            assert(b@.take(b.len() as int) =~= b@);
        }
        let head_chars = crate::text::slice_chars(b.as_slice(), 0, k);
        assert(head_chars@ =~= b@.take(k as int));
        let head = string_of(head_chars.as_slice());
        let s = join2(head.as_str(), "/survey/");
        join2(s.as_str(), token)
    }

    /// A new link token: the simple forms of two fresh UUIDs, 64 hexadecimal digits.
    pub fn token_text(first: u128, second: u128) -> (r: String)
        ensures
            r@ == uuid_simple(first) + uuid_simple(second),
    {
        let a = uuid_simple_string(first);
        let b = uuid_simple_string(second);
        join2(a.as_str(), b.as_str())
    }

    /// When a link issued at `now` expires: after the survey's days of validity.
    pub fn token_expiry(now: i64, ttl_days: i32) -> (r: i64)
        requires
            i64::MIN <= now + ttl_days * 86400 <= i64::MAX,
        ensures
            r == now + ttl_days * 86400,
    {
        now + (ttl_days as i64) * 86400
    }

    /// The decision on opening a public survey link (see `public_access`).
    pub fn check_public_access(
        status: &str,
        expires_at: i64,
        now: i64,
        survey_active: bool,
        allow_reentry_override: i32,
    ) -> (r: Result<(), SurveyRefusal>)
        ensures
            r == public_access(status@, expires_at, now, survey_active, allow_reentry_override),
    {
        if expires_at < now {
            Err(SurveyRefusal::LinkExpired)
        } else if !survey_active {
            Err(SurveyRefusal::SurveyInactive)
        } else if chars_are(chars_of(status).as_slice(), "completed") && allow_reentry_override
            == 0 {
            Err(SurveyRefusal::AlreadyCompleted)
        } else {
            Ok(())
        }
    }

    /// Whether opening an expired link marks it expired: it does when it was still open.
    pub fn expires_on_access(status: &str) -> (r: bool)
        ensures
            r == is_open_status(status@),
    {
        let s = chars_of(status);
        chars_are(s.as_slice(), "pending") || chars_are(s.as_slice(), "in_progress")
    }

    /// The decision on saving draft answers: refused for a completed link, then for an
    /// expired one; otherwise whether the link moves from pending to in progress.
    pub fn check_draft(status: &str, expires_at: i64, now: i64) -> (r: Result<bool, SurveyRefusal>)
        ensures
            r == if status@ == "completed"@ {
                Err(SurveyRefusal::DraftOfCompleted)
            } else if expires_at < now {
                Err(SurveyRefusal::SurveyExpired)
            } else {
                Ok(status@ == "pending"@)
            },
    {
        let s = chars_of(status);
        if chars_are(s.as_slice(), "completed") {
            Err(SurveyRefusal::DraftOfCompleted)
        } else if expires_at < now {
            Err(SurveyRefusal::SurveyExpired)
        } else {
            Ok(chars_are(s.as_slice(), "pending"))
        }
    }

    /// The decision on submitting answers: refused for a completed link that may not be
    /// answered again, then for an expired one.
    pub fn check_submission(status: &str, allow_reentry_override: i32, expires_at: i64, now: i64) -> (r:
        Result<(), SurveyRefusal>)
        ensures
            r == if status@ == "completed"@ && allow_reentry_override == 0 {
                Err(SurveyRefusal::SubmissionCompleted)
            } else if expires_at < now {
                Err(SurveyRefusal::SurveyExpired)
            } else {
                Ok(())
            },
    {
        if chars_are(chars_of(status).as_slice(), "completed") && allow_reentry_override == 0 {
            Err(SurveyRefusal::SubmissionCompleted)
        } else if expires_at < now {
            Err(SurveyRefusal::SurveyExpired)
        } else {
            Ok(())
        }
    }

    /// The message a refusal shows.
    pub fn refusal_message(r: SurveyRefusal) -> (m: String)
        ensures
            m@ == match r {
                SurveyRefusal::LinkExpired => "Este enlace de encuesta ha expirado"@,
                SurveyRefusal::SurveyInactive => "Esta encuesta ya no se encuentra activa"@,
                SurveyRefusal::AlreadyCompleted => "Esta encuesta ya ha sido completada. ¡Muchas gracias!"@,
                SurveyRefusal::DraftOfCompleted => "No se pueden modificar borradores de una encuesta ya completada"@,
                SurveyRefusal::SurveyExpired => "Esta encuesta ha expirado"@,
                SurveyRefusal::SubmissionCompleted => "Esta encuesta ya ha sido completada"@,
            },
    {
        match r {
            SurveyRefusal::LinkExpired => "Este enlace de encuesta ha expirado".to_string(),
            SurveyRefusal::SurveyInactive => "Esta encuesta ya no se encuentra activa".to_string(),
            SurveyRefusal::AlreadyCompleted => "Esta encuesta ya ha sido completada. ¡Muchas gracias!".to_string(),
            SurveyRefusal::DraftOfCompleted => "No se pueden modificar borradores de una encuesta ya completada".to_string(),
            SurveyRefusal::SurveyExpired => "Esta encuesta ha expirado".to_string(),
            SurveyRefusal::SubmissionCompleted => "Esta encuesta ya ha sido completada".to_string(),
        }
    }

    fn replace_tag(text: Vec<char>, tag: &str, value: &str) -> (r: Vec<char>)
        requires
            tag@.len() > 0,
        ensures
            r@ == replace_all(text@, tag@, value@),
    {
        let t = chars_of(tag);
        let v = chars_of(value);
        replace_chars(text.as_slice(), t.as_slice(), v.as_slice())
    }

    /// A survey text with its ticket tags filled in: `##ticket.id##` by the ticket number,
    /// `##ticket.title##` by its title (both empty when unknown), `##ticket.technician##`
    /// by the technician (or "el equipo técnico") and `##ticket.requester##` by the
    /// requester (or "Estimado cliente"), in that order.
    pub fn replace_tags(
        content: &str,
        ticket_number: Option<&str>,
        ticket_title: Option<&str>,
        technician_name: Option<&str>,
        requester_name: Option<&str>,
    ) -> (r: String)
        ensures
            r@ == replace_all(
                replace_all(
                    replace_all(
                        replace_all(content@, "##ticket.id##"@, text_or_empty(ticket_number)),
                        "##ticket.title##"@,
                        text_or_empty(ticket_title),
                    ),
                    "##ticket.technician##"@,
                    text_or_default(technician_name, "el equipo técnico"@),
                ),
                "##ticket.requester##"@,
                text_or_default(requester_name, "Estimado cliente"@),
            ),
    {
        proof {
            reveal_strlit("##ticket.id##");
            reveal_strlit("##ticket.title##");
            reveal_strlit("##ticket.technician##");
            reveal_strlit("##ticket.requester##");
            reveal_strlit("");
            assert(""@ =~= Seq::<char>::empty());
        }
        let a = Self::replace_tag(chars_of(content), "##ticket.id##", match ticket_number {
            Some(t) => t,
            None => "",
        });
        let b = Self::replace_tag(a, "##ticket.title##", match ticket_title {
            Some(t) => t,
            None => "",
        });
        let c = Self::replace_tag(b, "##ticket.technician##", match technician_name {
            Some(t) => t,
            None => "el equipo técnico",
        });
        let d = Self::replace_tag(c, "##ticket.requester##", match requester_name {
            Some(t) => t,
            None => "Estimado cliente",
        });
        string_of(d.as_slice())
    }

    fn push_repeated(s: &mut String, t: &str, n: usize)
        ensures
            final(s)@ == old(s)@ + repeat(t@, n as nat),
        decreases n,
    {
        if n > 0 {
            Self::push_repeated(s, t, n - 1);
            s.append(t);
            assert(old(s)@ + repeat(t@, n as nat) =~= old(s)@ + repeat(t@, (n - 1) as nat) + t@);
        } else {
            assert(old(s)@ + repeat(t@, 0) =~= old(s)@);
        }
    }

    /// The summary line of one answer (see `answer_line`).
    pub fn summary_line(a: &AnsweredQuestion) -> (r: Option<String>)
        ensures
            opt_text(r) == answer_line(*a),
    {
        let kind = chars_of(a.question_type.as_str());
        if chars_are(kind.as_slice(), "rating5") {
            match parse_i32(a.value.as_str()) {
                Some(n) => {
                    let mut s = join2("* **", a.name.as_str());
                    s.append("**: ");
                    let stars = ReceiverService::clamp_level(n);
                    Self::push_repeated(&mut s, "⭐", stars as usize);
                    s.append(" (");
                    push_int(&mut s, n as i64);
                    s.append("/5)");
                    Some(s)
                },
                None => None,
            }
        } else if chars_are(kind.as_slice(), "nps") {
            let mut s = join2("* **", a.name.as_str());
            s.append("**: **");
            s.append(a.value.as_str());
            s.append("/10**");
            Some(s)
        } else {
            let mut s = join2("* **", a.name.as_str());
            s.append("**: ");
            s.append(a.value.as_str());
            Some(s)
        }
    }

    /// The summary lines of submitted answers, in order, and the overall rating: the last
    /// numeric rating among them.
    pub fn summarize_answers(answers: &[AnsweredQuestion]) -> (r: (Vec<String>, Option<i32>))
        ensures
            r.0@.map_values(|s: String| s@) == answer_lines(answers@, answers@.len() as int),
            r.1 == overall_rating(answers@, answers@.len() as int),
    {
        let mut lines: Vec<String> = Vec::new();
        let mut rating: Option<i32> = None;
        let mut i: usize = 0;
        assert(lines@.map_values(|s: String| s@) =~= Seq::<Seq<char>>::empty());
        while i < answers.len()
            invariant
                i <= answers.len(),
                lines@.map_values(|s: String| s@) == answer_lines(answers@, i as int),
                rating == overall_rating(answers@, i as int),
            decreases answers.len() - i,
        {
            let a = &answers[i];
            if chars_are(chars_of(a.question_type.as_str()).as_slice(), "rating5") {
                match parse_i32(a.value.as_str()) {
                    Some(n) => {
                        rating = Some(n);
                    },
                    None => {},
                }
            }
            match Self::summary_line(a) {
                Some(l) => {
                    let ghost before = lines@;
                    lines.push(l);
                    assert(lines@.map_values(|s: String| s@) =~= before.map_values(|s: String| s@).push(l@));
                },
                None => {},
            }
            i = i + 1;
        }
        (lines, rating)
    }

    /// The ticket note that records a survey's answers (see `satisfaction_note`).
    pub fn satisfaction_followup(rating: Option<i32>, lines: &[String]) -> (r: String)
        requires
            rating matches Some(v) ==> v >= 0,
        ensures
            r@ == satisfaction_note(rating, lines@.map_values(|s: String| s@)),
    {
        let mut s = "📋 **Encuesta de Satisfacción Recibida**: ".to_string();
        match rating {
            Some(v) => {
                Self::push_repeated(&mut s, "⭐", v as usize);
                s.append(" (");
                push_int(&mut s, v as i64);
                s.append("/5)");
            },
            None => {
                s.append("Completada");
            },
        }
        s.append("\n\n");
        let joined = Self::join_with_newlines(lines);
        s.append(joined.as_str());
        s.append("\n\n*Registrado de forma automatizada por el sistema de encuestas.*");
        assert(s@ =~= satisfaction_note(rating, lines@.map_values(|s: String| s@)));
        s
    }

    fn join_with_newlines(lines: &[String]) -> (r: String)
        ensures
            r@ == join_lines(lines@.map_values(|s: String| s@)),
    {
        let ghost views = lines@.map_values(|s: String| s@);
        let mut s = String::new();
        let mut i: usize = 0;
        while i < lines.len()
            invariant
                i <= lines.len(),
                views == lines@.map_values(|s: String| s@),
                s@ == join_lines(views.take(i as int)),
            decreases lines.len() - i,
        {
            if i > 0 {
                push_char(&mut s, '\n');
            }
            s.append(lines[i].as_str());
            proof {
                let t = views.take(i + 1);
                assert(t.drop_last() =~= views.take(i as int));
                assert(t.last() == lines@[i as int]@);
                if i == 0 {
                    assert(views.take(0) =~= Seq::<Seq<char>>::empty());
                }
            }
            i = i + 1;
        }
        assert(views.take(lines.len() as int) =~= views);
        s
    }

    /// How the ratings of the rows (star, count) spread: for each of 1 to 5 stars the count
    /// of the last row for it, and the total of the counts of all rows with 1 to 5 stars.
    pub fn tally_csat(rows: &[(Option<i32>, i64)]) -> (r: CsatTally)
        requires
            totals_fit(rows@, 1, 5),
        ensures
            r.counts@.len() == 5,
            forall|s: int| 1 <= s <= 5 ==> #[trigger] r.counts@[s - 1] == count_for(rows@, s, rows@.len() as int),
            r.total == in_range_total(rows@, 1, 5, rows@.len() as int),
    {
        let mut counts: Vec<i64> = vec![0, 0, 0, 0, 0];
        let mut total: i64 = 0;
        let mut i: usize = 0;
        while i < rows.len()
            invariant
                i <= rows.len(),
                totals_fit(rows@, 1, 5),
                counts@.len() == 5,
                forall|s: int| 1 <= s <= 5 ==> #[trigger] counts@[s - 1] == count_for(rows@, s, i as int),
                total == in_range_total(rows@, 1, 5, i as int),
            decreases rows.len() - i,
        {
            assert(i64::MIN <= in_range_total(rows@, 1, 5, i + 1) <= i64::MAX);
            let (star, count) = rows[i];
            match star {
                Some(v) => {
                    if 1 <= v && v <= 5 {
                        counts.set((v - 1) as usize, count);
                        total = total + count;
                    }
                },
                None => {},
            }
            i = i + 1;
        }
        CsatTally { counts, total }
    }

    /// How the NPS scores of the rows (score, count) spread over promoters, passives and
    /// detractors, scores outside 0 to 10 left out.
    pub fn tally_nps(rows: &[(Option<i32>, i64)]) -> (r: NpsTally)
        requires
            totals_fit(rows@, 0, 10),
            totals_fit(rows@, 9, 10),
            totals_fit(rows@, 7, 8),
            totals_fit(rows@, 0, 6),
        ensures
            r.total == in_range_total(rows@, 0, 10, rows@.len() as int),
            r.promoters == in_range_total(rows@, 9, 10, rows@.len() as int),
            r.passives == in_range_total(rows@, 7, 8, rows@.len() as int),
            r.detractors == in_range_total(rows@, 0, 6, rows@.len() as int),
    {
        let mut t = NpsTally { promoters: 0, passives: 0, detractors: 0, total: 0 };
        let mut i: usize = 0;
        while i < rows.len()
            invariant
                i <= rows.len(),
                totals_fit(rows@, 0, 10),
                totals_fit(rows@, 9, 10),
                totals_fit(rows@, 7, 8),
                totals_fit(rows@, 0, 6),
                t.total == in_range_total(rows@, 0, 10, i as int),
                t.promoters == in_range_total(rows@, 9, 10, i as int),
                t.passives == in_range_total(rows@, 7, 8, i as int),
                t.detractors == in_range_total(rows@, 0, 6, i as int),
            decreases rows.len() - i,
        {
            assert(i64::MIN <= in_range_total(rows@, 0, 10, i + 1) <= i64::MAX);
            assert(i64::MIN <= in_range_total(rows@, 9, 10, i + 1) <= i64::MAX);
            assert(i64::MIN <= in_range_total(rows@, 7, 8, i + 1) <= i64::MAX);
            assert(i64::MIN <= in_range_total(rows@, 0, 6, i + 1) <= i64::MAX);
            let (score, count) = rows[i];
            match score {
                Some(v) => {
                    if 0 <= v && v <= 10 {
                        t.total = t.total + count;
                        if v >= 9 {
                            t.promoters = t.promoters + count;
                        } else if v >= 7 {
                            t.passives = t.passives + count;
                        } else {
                            t.detractors = t.detractors + count;
                        }
                    }
                },
                None => {},
            }
            i = i + 1;
        }
        t
    }

    /// The ranking of the `i`-th option of a preset question: 10, 20, 30, ...
    pub fn option_ranking(i: usize) -> (r: i32)
        requires
            (i + 1) * 10 <= i32::MAX,
        ensures
            r == (i + 1) * 10,
    {
        ((i + 1) * 10) as i32
    }
}

/// A survey question's editable attributes.
#[derive(Clone, Debug)]
pub struct QuestionAttributes {
    pub name: String,
    pub question_type: String,
    pub is_mandatory: bool,
    pub ranking: i32,
    pub condition_question_id: Option<u128>,
    pub condition_value: Option<String>,
}

/// A change to a survey question: each attribute only where given.
#[derive(Clone, Debug)]
pub struct QuestionChange {
    pub name: Option<String>,
    pub question_type: Option<String>,
    pub is_mandatory: Option<bool>,
    pub ranking: Option<i32>,
    pub condition_question_id: Option<u128>,
    pub condition_value: Option<String>,
}

/// The settings of a new survey.
#[derive(Clone, Copy, Debug, PartialEq, Eq, Structural)]
pub struct NewSurveySettings {
    pub is_default: bool,
    pub is_active: bool,
    pub is_recursive: bool,
    pub ttl_days: i32,
    pub allow_reentry: i32,
}

impl SurveyService {
    /// The settings of a new survey: not the default, active, inherited by sub-entities,
    /// links valid 15 days and no re-entry, unless the request says otherwise.
    pub fn new_survey_settings(
        is_default: Option<bool>,
        is_active: Option<bool>,
        is_recursive: Option<bool>,
        ttl_days: Option<i32>,
        allow_reentry: Option<i32>,
    ) -> (r: NewSurveySettings)
        ensures
            r.is_default == match is_default {
                Some(v) => v,
                None => false,
            },
            r.is_active == match is_active {
                Some(v) => v,
                None => true,
            },
            r.is_recursive == match is_recursive {
                Some(v) => v,
                None => true,
            },
            r.ttl_days == match ttl_days {
                Some(v) => v,
                None => 15,
            },
            r.allow_reentry == match allow_reentry {
                Some(v) => v,
                None => 0,
            },
    {
        NewSurveySettings {
            is_default: match is_default {
                Some(v) => v,
                None => false,
            },
            is_active: match is_active {
                Some(v) => v,
                None => true,
            },
            is_recursive: match is_recursive {
                Some(v) => v,
                None => true,
            },
            ttl_days: match ttl_days {
                Some(v) => v,
                None => 15,
            },
            allow_reentry: match allow_reentry {
                Some(v) => v,
                None => 0,
            },
        }
    }

    /// Whether saving a survey as the default takes that role from the others: only when
    /// it becomes the default now.
    pub fn takes_default_role(new_is_default: bool, was_default: bool) -> (r: bool)
        ensures
            r == (new_is_default && !was_default),
    {
        new_is_default && !was_default
    }

    /// The name of a cloned survey: the name asked for, or the cloned survey's name with
    /// " (Copia)".
    pub fn clone_name(source_name: &str, new_name: Option<String>) -> (r: String)
        ensures
            r@ == match new_name {
                Some(n) => n@,
                None => source_name@ + " (Copia)"@,
            },
    {
        match new_name {
            Some(n) => n,
            None => join2(source_name, " (Copia)"),
        }
    }

    /// The ranking of a new question: the one given, or 10 after the highest so far (0
    /// when there is none).
    pub fn next_question_ranking(given: Option<i32>, highest: Option<i32>) -> (r: i32)
        requires
            given is None ==> (highest matches Some(h) ==> h <= i32::MAX - 10),
        ensures
            r == match given {
                Some(g) => g as int,
                None => match highest {
                    Some(h) => h + 10,
                    None => 10,
                },
            },
    {
        match given {
            Some(g) => g,
            None => match highest {
                Some(h) => h + 10,
                None => 10,
            },
        }
    }

    /// A question after a change: each attribute as changed where the change gives it, as
    /// it was otherwise.
    pub fn apply_question_change(existing: QuestionAttributes, change: QuestionChange) -> (r:
        QuestionAttributes)
        ensures
            r.name@ == match change.name {
                Some(n) => n@,
                None => existing.name@,
            },
            r.question_type@ == match change.question_type {
                Some(t) => t@,
                None => existing.question_type@,
            },
            r.is_mandatory == match change.is_mandatory {
                Some(m) => m,
                None => existing.is_mandatory,
            },
            r.ranking == match change.ranking {
                Some(k) => k,
                None => existing.ranking,
            },
            r.condition_question_id == match change.condition_question_id {
                Some(q) => Some(q),
                None => existing.condition_question_id,
            },
            opt_text(r.condition_value) == match change.condition_value {
                Some(v) => Some(v@),
                None => opt_text(existing.condition_value),
            },
    {
        QuestionAttributes {
            name: match change.name {
                Some(n) => n,
                None => existing.name,
            },
            question_type: match change.question_type {
                Some(t) => t,
                None => existing.question_type,
            },
            is_mandatory: match change.is_mandatory {
                Some(m) => m,
                None => existing.is_mandatory,
            },
            ranking: match change.ranking {
                Some(k) => k,
                None => existing.ranking,
            },
            condition_question_id: match change.condition_question_id {
                Some(q) => Some(q),
                None => existing.condition_question_id,
            },
            condition_value: match change.condition_value {
                Some(v) => Some(v),
                None => existing.condition_value,
            },
        }
    }

    /// The question a preset question depends on: the one created at the given earlier
    /// position, if there is one.
    pub fn condition_question(created: &[u128], index: Option<usize>) -> (r: Option<u128>)
        ensures
            r == match index {
                Some(i) => if i < created@.len() {
                    Some(created@[i as int])
                } else {
                    None
                },
                None => None,
            },
    {
        match index {
            Some(i) => if i < created.len() {
                Some(created[i])
            } else {
                None
            },
            None => None,
        }
    }
}

/// The number of a placeholder in SQL: `$` and its position.
pub open spec fn sql_param(n: nat) -> Seq<char> {
    seq!['$'] + crate::text::decimal(n)
}

/// The conditions on survey links that the dashboard applies: on the survey (the first
/// parameter) and on the creation time from and to (the next parameters), each only when
/// given.
pub open spec fn token_filter_text(by_survey: bool, from: bool, to: bool) -> Seq<char> {
    "WHERE 1=1"@ + (if by_survey {
        " AND survey_id = $1"@
    } else {
        Seq::empty()
    }) + (if from {
        " AND created_at >= "@ + sql_param(if by_survey {
            2
        } else {
            1
        })
    } else {
        Seq::empty()
    }) + (if to {
        " AND created_at <= "@ + sql_param(
            (if by_survey {
                1nat
            } else {
                0nat
            }) + (if from {
                1nat
            } else {
                0nat
            }) + 1,
        )
    } else {
        Seq::empty()
    })
}

/// A recorded answer: its question's type and the answer, if any.
#[derive(Clone, Debug)]
pub struct RecordedAnswer {
    pub question_type: String,
    pub answer: Option<String>,
}

/// The number answered to the first question of type `kind`, if that answer is a number.
pub open spec fn first_number_of(answers: Seq<RecordedAnswer>, kind: Seq<char>) -> Option<i32>
    decreases answers.len(),
{
    if answers.len() == 0 {
        None
    } else if answers[0].question_type@ == kind {
        match answers[0].answer {
            Some(a) => i32_of_text(a@),
            None => None,
        }
    } else {
        first_number_of(answers.drop_first(), kind)
    }
}

impl SurveyService {
    /// The conditions on survey links of the dashboard (see `token_filter_text`).
    pub fn metrics_token_filter(by_survey: bool, from: bool, to: bool) -> (r: String)
        ensures
            r@ == token_filter_text(by_survey, from, to),
    {
        let mut s = "WHERE 1=1".to_string();
        if by_survey {
            s.append(" AND survey_id = $1");
        }
        if from {
            s.append(" AND created_at >= ");
            push_char(&mut s, '$');
            crate::text::push_decimal(&mut s, if by_survey {
                2
            } else {
                1
            });
        }
        if to {
            let count: u64 = (if by_survey {
                1
            } else {
                0
            }) + (if from {
                1
            } else {
                0
            });
            s.append(" AND created_at <= ");
            push_char(&mut s, '$');
            crate::text::push_decimal(&mut s, count + 1);
        }
        assert(s@ =~= token_filter_text(by_survey, from, to));
        s
    }

    /// The number answered to the first question of a type (see `first_number_of`): the
    /// rating or NPS score a recent response shows.
    pub fn first_numeric_answer(answers: &[RecordedAnswer], kind: &str) -> (r: Option<i32>)
        ensures
            r == first_number_of(answers@, kind@),
    {
        let k = chars_of(kind);
        let mut i: usize = 0;
        assert(answers@.skip(0) =~= answers@);
        while i < answers.len()
            invariant
                i <= answers.len(),
                k@ == kind@,
                first_number_of(answers@.skip(i as int), kind@) == first_number_of(answers@, kind@),
            decreases answers.len() - i,
        {
            assert(answers@.skip(i as int).drop_first() =~= answers@.skip(i + 1));
            assert(answers@.skip(i as int)[0] == answers@[i as int]);
            if crate::text::chars_equal(chars_of(answers[i].question_type.as_str()).as_slice(), k.as_slice()) {
                return match &answers[i].answer {
                    Some(a) => parse_i32(a.as_str()),
                    None => None,
                };
            }
            i = i + 1;
        }
        None
    }
}

/// A text, or the empty text when there is none.
pub open spec fn text_or_empty(t: Option<&str>) -> Seq<char> {
    match t {
        Some(s) => s@,
        None => Seq::empty(),
    }
}

/// A text, or `default` when there is none.
pub open spec fn text_or_default(t: Option<&str>, default: Seq<char>) -> Seq<char> {
    match t {
        Some(s) => s@,
        None => default,
    }
}


/// Trailing slashes of the base address do not change a survey's public address.
pub proof fn law_trailing_slash_ignored(base: Seq<char>, token: Seq<char>)
    ensures
        public_url_text(Some(base.push('/')), token) == public_url_text(Some(base), token),
{
    assert(base.push('/').drop_last() =~= base);
}

/// An expired link is always refused as expired, whatever the survey and token say.
pub proof fn law_expired_link_refused(
    status: Seq<char>,
    expires_at: i64,
    now: i64,
    survey_active: bool,
    allow_reentry_override: i32,
)
    requires
        expires_at < now,
    ensures
        public_access(status, expires_at, now, survey_active, allow_reentry_override) == Err::<
            (),
            SurveyRefusal,
        >(SurveyRefusal::LinkExpired),
{
}

/// A completed survey can be opened again only when re-entry is allowed.
pub proof fn law_completed_survey_needs_reentry(expires_at: i64, now: i64, allow_reentry_override: i32)
    requires
        now <= expires_at,
        public_access("completed"@, expires_at, now, true, allow_reentry_override) is Ok,
    ensures
        allow_reentry_override != 0,
{
}

/// Every NPS answer counted is a promoter, a passive or a detractor.
pub proof fn law_nps_groups_partition(rows: Seq<(Option<i32>, i64)>, n: int)
    requires
        0 <= n <= rows.len(),
    ensures
        in_range_total(rows, 0, 10, n) == in_range_total(rows, 9, 10, n) + in_range_total(rows, 7, 8, n)
            + in_range_total(rows, 0, 6, n),
    decreases n,
{
    if n > 0 {
        law_nps_groups_partition(rows, n - 1);
    }
}

/// A survey link already issued, as the check for an open link reads it. Times are Unix
/// timestamps in seconds.
pub struct IssuedLink {
    pub ticket_id: Option<u128>,
    pub survey_id: u128,
    pub status: String,
    pub created_at: i64,
    pub expires_at: i64,
}

/// Whether a link is still open for ticket `ticket` and survey `survey` at `now`: it
/// belongs to both, it is `pending` or `in_progress`, and it expires after `now`.
pub open spec fn link_open_for(l: IssuedLink, ticket: u128, survey: u128, now: i64) -> bool {
    &&& l.ticket_id == Some(ticket)
    &&& l.survey_id == survey
    &&& (l.status@ == "pending"@ || l.status@ == "in_progress"@)
    &&& l.expires_at > now
}

/// What `SurveyService::reusable_link` chooses: nothing without a ticket; otherwise the
/// open link created last, the first listed among equally recent ones, or nothing when no
/// link is open.
pub open spec fn reuse_choice(
    links: Seq<IssuedLink>,
    ticket_id: Option<u128>,
    survey_id: u128,
    now: i64,
    r: Option<usize>,
) -> bool {
    match ticket_id {
        None => r is None,
        Some(t) => match r {
            Some(i) => {
                &&& i < links.len()
                &&& link_open_for(links[i as int], t, survey_id, now)
                &&& forall|j: int|
                    0 <= j < links.len() && link_open_for(#[trigger] links[j], t, survey_id, now)
                        ==> links[j].created_at <= links[i as int].created_at
                &&& forall|j: int|
                    0 <= j < i && link_open_for(#[trigger] links[j], t, survey_id, now)
                        ==> links[j].created_at < links[i as int].created_at
            },
            None => forall|j: int| 0 <= j < links.len() ==> !link_open_for(#[trigger] links[j], t, survey_id, now),
        },
    }
}

/// A link issued for a ticket when none was open is the one handed out afterwards, as
/// long as it is still open: issuing again gives the same link.
pub proof fn law_issued_link_is_reused(
    links: Seq<IssuedLink>,
    issued: IssuedLink,
    ticket: u128,
    survey: u128,
    now: i64,
    later: i64,
    r: Option<usize>,
)
    requires
        reuse_choice(links, Some(ticket), survey, now, None),
        issued.ticket_id == Some(ticket),
        issued.survey_id == survey,
        issued.status@ == "pending"@,
        now <= later < issued.expires_at,
        reuse_choice(links.push(issued), Some(ticket), survey, later, r),
    ensures
        r == Some(links.len() as usize),
{
    let all = links.push(issued);
    assert(all[links.len() as int] == issued);
    assert(link_open_for(issued, ticket, survey, later));
    assert forall|j: int| 0 <= j < links.len() implies !link_open_for(
        #[trigger] all[j],
        ticket,
        survey,
        later,
    ) by {
        assert(all[j] == links[j]);
        assert(!link_open_for(links[j], ticket, survey, now));
    }
    match r {
        Some(i) => {
            if (i as int) < links.len() {
                assert(!link_open_for(all[i as int], ticket, survey, later));
            }
        },
        None => {
            assert(!link_open_for(all[links.len() as int], ticket, survey, later));
        },
    }
}

/// A link handed out for a ticket keeps being handed out while it stays open.
pub proof fn law_reused_link_stays_chosen(
    links: Seq<IssuedLink>,
    ticket: u128,
    survey: u128,
    i: usize,
    now: i64,
    later: i64,
    r: Option<usize>,
)
    requires
        reuse_choice(links, Some(ticket), survey, now, Some(i)),
        now <= later < links[i as int].expires_at,
        reuse_choice(links, Some(ticket), survey, later, r),
    ensures
        r == Some(i),
{
    assert(link_open_for(links[i as int], ticket, survey, later));
    match r {
        Some(k) => {
            assert(link_open_for(links[k as int], ticket, survey, now));
            if k < i {
                assert(links[k as int].created_at < links[i as int].created_at);
                assert(links[i as int].created_at <= links[k as int].created_at);
            } else if k > i {
                assert(links[k as int].created_at <= links[i as int].created_at);
                assert(links[i as int].created_at < links[k as int].created_at);
            }
        },
        None => {},
    }
}

impl SurveyService {
    /// The link to hand out again instead of issuing a new one: for a ticket, the open
    /// link (see `link_open_for`) created last, the first listed among equally recent
    /// ones; `None` when there is no ticket or no open link.
    pub fn reusable_link(links: &[IssuedLink], ticket_id: Option<u128>, survey_id: u128, now: i64) -> (r:
        Option<usize>)
        ensures
            reuse_choice(links@, ticket_id, survey_id, now, r),
    {
        let t = match ticket_id {
            Some(t) => t,
            None => {
                return None;
            },
        };
        let mut best: Option<usize> = None;
        let mut k: usize = 0;
        while k < links.len()
            invariant
                k <= links@.len(),
                ticket_id == Some(t),
                match best {
                    Some(i) => {
                        &&& i < k
                        &&& link_open_for(links@[i as int], t, survey_id, now)
                        &&& forall|j: int|
                            0 <= j < k && link_open_for(#[trigger] links@[j], t, survey_id, now)
                                ==> links@[j].created_at <= links@[i as int].created_at
                        &&& forall|j: int|
                            0 <= j < i && link_open_for(#[trigger] links@[j], t, survey_id, now)
                                ==> links@[j].created_at < links@[i as int].created_at
                    },
                    None => forall|j: int|
                        0 <= j < k ==> !link_open_for(#[trigger] links@[j], t, survey_id, now),
                },
            decreases links@.len() - k,
        {
            let l = &links[k];
            let st = chars_of(l.status.as_str());
            let open = l.ticket_id == Some(t) && l.survey_id == survey_id && (chars_are(
                st.as_slice(),
                "pending",
            ) || chars_are(st.as_slice(), "in_progress")) && l.expires_at > now;
            assert(open == link_open_for(links@[k as int], t, survey_id, now));
            if open {
                match best {
                    Some(i) => {
                        if links[i].created_at < l.created_at {
                            best = Some(k);
                        }
                    },
                    None => {
                        best = Some(k);
                    },
                }
            }
            k = k + 1;
        }
        best
    }
}

} // verus!
