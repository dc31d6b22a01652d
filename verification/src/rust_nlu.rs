//! The local pattern classifier: an ordered table of regular expressions
//! per intent, a coverage-based confidence score, and intent-specific
//! entity extraction. It never fails; when nothing matches it reports the
//! `unknown` intent at a fixed low confidence.

use vstd::prelude::*;
use vstd::string::StringSliceAdditionalSpecFns;
use crate::nlu::{Entity, EntityV, Intent, IntentV, COVERAGE_WEIGHT, EXACTNESS_BONUS,
    MAX_MATCH_CONFIDENCE, UNKNOWN_CONFIDENCE};
use crate::text::{byte_len, lower_of, lowercase, regex_capture, regex_capture_of, regex_find,
    regex_find_of, reported_len, str_eq_check, trim, trim_of};

verus! {

/// One row of the pattern table: an intent label and the regular
/// expressions that signal it.
pub struct IntentPattern {
    pub intent: String,
    pub patterns: Vec<String>,
}

/// The mathematical value of an `IntentPattern`.
#[verifier::ext_equal]
pub struct IntentPatternV {
    pub intent: Seq<char>,
    pub patterns: Seq<Seq<char>>,
}

impl View for IntentPattern {
    type V = IntentPatternV;

    open spec fn view(&self) -> IntentPatternV {
        IntentPatternV { intent: self.intent@, patterns: self.patterns.deep_view() }
    }
}

impl DeepView for IntentPattern {
    type V = IntentPatternV;

    open spec fn deep_view(&self) -> IntentPatternV {
        self.view()
    }
}

/// The regular expression that finds a room name for light control.
pub open spec fn room_pattern() -> Seq<char> {
    "(?i)(living room|bedroom|kitchen|bathroom|office)"@
}

/// The regular expression whose first capture group is a location phrase
/// for weather requests.
pub open spec fn location_pattern() -> Seq<char> {
    r"(?i)(?:in|for|at)\s+([a-zA-Z\s,]+?)(?:\?|$)"@
}

/// The fixed pattern table the classifier is built with.
pub open spec fn spec_default_table() -> Seq<IntentPatternV> {
    seq![
        IntentPatternV {
            intent: "get_time"@,
            patterns: seq![
                r"(?i)what.{0,10}time"@,
                r"(?i)current.{0,5}time"@,
                r"(?i)tell.{0,10}time"@,
                r"(?i)time.{0,5}(is|please)"@,
                r"(?i)^time$"@,
                r"(?i)clock"@,
            ],
        },
        IntentPatternV {
            intent: "get_weather"@,
            patterns: seq![
                r"(?i)weather"@,
                r"(?i)temperature"@,
                r"(?i)forecast"@,
                r"(?i)(how.{0,5}|what.{0,5})(hot|cold|warm)"@,
                r"(?i)raining"@,
                r"(?i)sunny"@,
            ],
        },
        IntentPatternV {
            intent: "control_lights"@,
            patterns: seq![
                r"(?i)turn.{0,5}(on|off).{0,10}light"@,
                r"(?i)light.{0,5}(on|off)"@,
                r"(?i)(switch|dim|brighten).{0,10}light"@,
                r"(?i)lights.{0,5}(on|off)"@,
            ],
        },
        IntentPatternV {
            intent: "greet"@,
            patterns: seq![
                r"(?i)^(hi|hello|hey)($|\s)"@,
                r"(?i)good.{0,5}(morning|evening|afternoon)"@,
                r"(?i)greetings"@,
            ],
        },
        IntentPatternV {
            intent: "goodbye"@,
            patterns: seq![
                r"(?i)(bye|goodbye|farewell)"@,
                r"(?i)see.{0,5}you"@,
                r"(?i)talk.{0,5}later"@,
            ],
        },
    ]
}

/// Confidence earned by one match: coverage of the text weighted by
/// `COVERAGE_WEIGHT`, plus the exactness bonus when the whole trimmed
/// input folds to the matched text, clamped at `MAX_MATCH_CONFIDENCE`.
pub open spec fn match_confidence(text: Seq<char>, matched: Seq<char>) -> int {
    let tl = reported_len(text);
    let ml = reported_len(matched);
    if tl == 0 {
        0
    } else {
        let bonus: int = if lower_of(trim_of(text)) == lower_of(matched) {
            EXACTNESS_BONUS as int
        } else {
            0
        };
        let c = (COVERAGE_WEIGHT as int) * ml / tl + bonus;
        if c > MAX_MATCH_CONFIDENCE as int {
            MAX_MATCH_CONFIDENCE as int
        } else {
            c
        }
    }
}

/// Keep the running best, replacing it only on a strictly higher score.
pub open spec fn better(b: (Seq<char>, int), intent: Seq<char>, c: int) -> (Seq<char>, int) {
    if c > b.1 {
        (intent, c)
    } else {
        b
    }
}

/// Account one pattern of one intent into the running best.
pub open spec fn step_pattern(
    text: Seq<char>,
    intent: Seq<char>,
    p: Seq<char>,
    b: (Seq<char>, int),
) -> (Seq<char>, int) {
    match regex_find_of(p, text) {
        Some(m) => better(b, intent, match_confidence(text, m.2)),
        None => b,
    }
}

/// The running best after the first `j` patterns of one intent.
pub open spec fn best_in_patterns(
    text: Seq<char>,
    intent: Seq<char>,
    pats: Seq<Seq<char>>,
    j: int,
    b: (Seq<char>, int),
) -> (Seq<char>, int)
    decreases j,
{
    if j <= 0 {
        b
    } else {
        step_pattern(text, intent, pats[j - 1], best_in_patterns(text, intent, pats, j - 1, b))
    }
}

/// The running best after the first `i` rows of the table.
pub open spec fn best_in_table(
    text: Seq<char>,
    table: Seq<IntentPatternV>,
    i: int,
    b: (Seq<char>, int),
) -> (Seq<char>, int)
    decreases i,
{
    if i <= 0 {
        b
    } else {
        let prev = best_in_table(text, table, i - 1, b);
        best_in_patterns(
            text,
            table[i - 1].intent,
            table[i - 1].patterns,
            table[i - 1].patterns.len() as int,
            prev,
        )
    }
}

/// The best label and score over the whole table, before the unknown
/// floor is applied.
pub open spec fn spec_best_match(table: Seq<IntentPatternV>, text: Seq<char>) -> (Seq<char>, int) {
    best_in_table(text, table, table.len() as int, ("unknown"@, 0))
}

/// The intent the classifier reports: the best match, floored to the
/// unknown confidence when nothing scored above zero.
pub open spec fn spec_intent(table: Seq<IntentPatternV>, text: Seq<char>) -> IntentV {
    let b = spec_best_match(table, text);
    if b.1 == 0 {
        IntentV { name: b.0, confidence: UNKNOWN_CONFIDENCE as int }
    } else {
        IntentV { name: b.0, confidence: b.1 }
    }
}

/// The entities the classifier attaches for a winning intent.
pub open spec fn spec_entities(text: Seq<char>, intent: Seq<char>) -> Seq<EntityV> {
    let rooms: Seq<EntityV> = if intent == "control_lights"@ {
        match regex_find_of(room_pattern(), text) {
            Some(m) => seq![
                EntityV {
                    name: "room"@,
                    value: lower_of(m.2),
                    start: m.0 as int,
                    end: m.1 as int,
                },
            ],
            None => Seq::empty(),
        }
    } else {
        Seq::empty()
    };
    let locations: Seq<EntityV> = if intent == "get_weather"@ {
        match regex_capture_of(location_pattern(), text) {
            Some(m) => seq![
                EntityV {
                    name: "location"@,
                    value: trim_of(m.2),
                    start: m.0 as int,
                    end: m.1 as int,
                },
            ],
            None => Seq::empty(),
        }
    } else {
        Seq::empty()
    };
    rooms + locations
}

/// No pattern of any row matches the text.
pub open spec fn no_pattern_matched(table: Seq<IntentPatternV>, text: Seq<char>) -> bool {
    forall|i: int, j: int|
        0 <= i < table.len() && 0 <= j < table[i].patterns.len() ==> (#[trigger] regex_find_of(
            table[i].patterns[j],
            text,
        )) is None
}

/// Every match a pattern of the table produces on this text earns a
/// positive score.
pub open spec fn all_matches_score(table: Seq<IntentPatternV>, text: Seq<char>) -> bool {
    forall|i: int, j: int|
        0 <= i < table.len() && 0 <= j < table[i].patterns.len() ==> ((
        #[trigger] regex_find_of(table[i].patterns[j], text)) matches Some(m)
            ==> match_confidence(text, m.2) > 0)
}

pub proof fn lemma_match_confidence_bounds(text: Seq<char>, matched: Seq<char>)
    ensures
        0 <= match_confidence(text, matched) <= MAX_MATCH_CONFIDENCE as int,
{
    let tl = reported_len(text);
    let ml = reported_len(matched);
    if tl != 0 {
        vstd::arithmetic::div_mod::lemma_div_pos_is_pos((COVERAGE_WEIGHT as int) * ml, tl);
    }
}

proof fn lemma_best_in_patterns_bounds(
    text: Seq<char>,
    intent: Seq<char>,
    pats: Seq<Seq<char>>,
    j: int,
    b: (Seq<char>, int),
)
    ensures
        best_in_patterns(text, intent, pats, j, b) == b || (best_in_patterns(
            text,
            intent,
            pats,
            j,
            b,
        ).0 == intent && b.1 < best_in_patterns(text, intent, pats, j, b).1
            <= MAX_MATCH_CONFIDENCE as int),
    decreases j,
{
    if j > 0 {
        lemma_best_in_patterns_bounds(text, intent, pats, j - 1, b);
        match regex_find_of(pats[j - 1], text) {
            Some(m) => {
                lemma_match_confidence_bounds(text, m.2);
            },
            None => {},
        }
    }
}

proof fn lemma_best_in_table_bounds(
    text: Seq<char>,
    table: Seq<IntentPatternV>,
    i: int,
    b: (Seq<char>, int),
)
    ensures
        best_in_table(text, table, i, b) == b || ((exists|k: int|
            0 <= k < i && #[trigger] table[k].intent == best_in_table(text, table, i, b).0)
            && b.1 < best_in_table(text, table, i, b).1 <= MAX_MATCH_CONFIDENCE as int),
    decreases i,
{
    if i > 0 {
        lemma_best_in_table_bounds(text, table, i - 1, b);
        let prev = best_in_table(text, table, i - 1, b);
        lemma_best_in_patterns_bounds(
            text,
            table[i - 1].intent,
            table[i - 1].patterns,
            table[i - 1].patterns.len() as int,
            prev,
        );
    }
}

proof fn lemma_best_in_patterns_nomatch(
    text: Seq<char>,
    intent: Seq<char>,
    pats: Seq<Seq<char>>,
    j: int,
    b: (Seq<char>, int),
)
    requires
        forall|jj: int| 0 <= jj < j ==> (#[trigger] regex_find_of(pats[jj], text)) is None,
    ensures
        best_in_patterns(text, intent, pats, j, b) == b,
    decreases j,
{
    if j > 0 {
        lemma_best_in_patterns_nomatch(text, intent, pats, j - 1, b);
    }
}

proof fn lemma_best_in_table_nomatch(
    text: Seq<char>,
    table: Seq<IntentPatternV>,
    i: int,
    b: (Seq<char>, int),
)
    requires
        forall|ii: int, jj: int|
            0 <= ii < i && 0 <= jj < table[ii].patterns.len() ==> (#[trigger] regex_find_of(
                table[ii].patterns[jj],
                text,
            )) is None,
    ensures
        best_in_table(text, table, i, b) == b,
    decreases i,
{
    if i > 0 {
        lemma_best_in_table_nomatch(text, table, i - 1, b);
        lemma_best_in_patterns_nomatch(
            text,
            table[i - 1].intent,
            table[i - 1].patterns,
            table[i - 1].patterns.len() as int,
            b,
        );
    }
}

proof fn lemma_best_in_patterns_pos(
    text: Seq<char>,
    intent: Seq<char>,
    pats: Seq<Seq<char>>,
    j: int,
    b: (Seq<char>, int),
    jm: int,
)
    requires
        0 <= jm < j,
        regex_find_of(pats[jm], text) matches Some(m) && match_confidence(text, m.2) > 0,
        0 <= b.1,
    ensures
        best_in_patterns(text, intent, pats, j, b).1 > 0,
    decreases j,
{
    let prev = best_in_patterns(text, intent, pats, j - 1, b);
    lemma_best_in_patterns_bounds(text, intent, pats, j - 1, b);
    if jm == j - 1 {
    } else {
        lemma_best_in_patterns_pos(text, intent, pats, j - 1, b, jm);
    }
}

proof fn lemma_best_in_table_pos(
    text: Seq<char>,
    table: Seq<IntentPatternV>,
    i: int,
    b: (Seq<char>, int),
    im: int,
    jm: int,
)
    requires
        0 <= im < i,
        0 <= jm < table[im].patterns.len(),
        regex_find_of(table[im].patterns[jm], text) matches Some(m) && match_confidence(
            text,
            m.2,
        ) > 0,
        0 <= b.1,
    ensures
        best_in_table(text, table, i, b).1 > 0,
    decreases i,
{
    let prev = best_in_table(text, table, i - 1, b);
    lemma_best_in_table_bounds(text, table, i - 1, b);
    if im == i - 1 {
        lemma_best_in_patterns_pos(
            text,
            table[i - 1].intent,
            table[i - 1].patterns,
            table[i - 1].patterns.len() as int,
            prev,
            jm,
        );
    } else {
        lemma_best_in_table_pos(text, table, i - 1, b, im, jm);
        lemma_best_in_patterns_bounds(
            text,
            table[i - 1].intent,
            table[i - 1].patterns,
            table[i - 1].patterns.len() as int,
            prev,
        );
    }
}

/// Law: for every table and text, the classified confidence lies
/// strictly between zero and one (in millionths), and never above the
/// match-confidence cap.
pub proof fn lemma_confidence_in_range(table: Seq<IntentPatternV>, text: Seq<char>)
    ensures
        0 < spec_intent(table, text).confidence,
        spec_intent(table, text).confidence <= MAX_MATCH_CONFIDENCE as int,
        spec_intent(table, text).confidence < crate::CONFIDENCE_SCALE as int,
{
    lemma_best_in_table_bounds(text, table, table.len() as int, ("unknown"@, 0));
}

/// Law: the classifier reports the unknown intent at the fixed floor
/// exactly when no pattern matched — provided no table row is itself
/// labelled `unknown` and every match that does occur earns a positive
/// score (a match of zero reported width on an overlong text can score
/// zero and is left out here).
pub proof fn lemma_unknown_floor_iff_no_match(table: Seq<IntentPatternV>, text: Seq<char>)
    requires
        all_matches_score(table, text),
        forall|i: int| 0 <= i < table.len() ==> (#[trigger] table[i].intent) != "unknown"@,
    ensures
        (spec_intent(table, text) == IntentV {
            name: "unknown"@,
            confidence: UNKNOWN_CONFIDENCE as int,
        }) <==> no_pattern_matched(table, text),
{
    let init: (Seq<char>, int) = ("unknown"@, 0);
    if no_pattern_matched(table, text) {
        lemma_best_in_table_nomatch(text, table, table.len() as int, init);
    } else {
        assert(exists|i: int, j: int|
            0 <= i < table.len() && 0 <= j < table[i].patterns.len() && (
            #[trigger] regex_find_of(table[i].patterns[j], text)) is Some);
        let (i, j) = choose|i: int, j: int|
            0 <= i < table.len() && 0 <= j < table[i].patterns.len() && (
            #[trigger] regex_find_of(table[i].patterns[j], text)) is Some;
        lemma_best_in_table_pos(text, table, table.len() as int, init, i, j);
        lemma_best_in_table_bounds(text, table, table.len() as int, init);
    }
}

/// The local pattern classifier.
pub struct RustNlu {
    patterns: Vec<IntentPattern>,
}

impl View for RustNlu {
    type V = Seq<IntentPatternV>;

    closed spec fn view(&self) -> Seq<IntentPatternV> {
        self.patterns.deep_view()
    }
}

impl RustNlu {
    /// Build the classifier with the fixed default pattern table.
    pub fn new() -> (r: RustNlu)
        ensures
            r@ == spec_default_table(),
    {
        let mut nlu = RustNlu { patterns: Vec::new() };
        nlu.load_patterns();
        nlu
    }

    fn load_patterns(&mut self)
        requires
            old(self)@.len() == 0,
        ensures
            final(self)@ == spec_default_table(),
    {
        let mut time_patterns: Vec<String> = Vec::new();
        time_patterns.push(r"(?i)what.{0,10}time".to_owned());
        time_patterns.push(r"(?i)current.{0,5}time".to_owned());
        time_patterns.push(r"(?i)tell.{0,10}time".to_owned());
        time_patterns.push(r"(?i)time.{0,5}(is|please)".to_owned());
        time_patterns.push(r"(?i)^time$".to_owned());
        time_patterns.push(r"(?i)clock".to_owned());
        self.add_intent("get_time", time_patterns);

        let mut weather_patterns: Vec<String> = Vec::new();
        weather_patterns.push(r"(?i)weather".to_owned());
        weather_patterns.push(r"(?i)temperature".to_owned());
        weather_patterns.push(r"(?i)forecast".to_owned());
        weather_patterns.push(r"(?i)(how.{0,5}|what.{0,5})(hot|cold|warm)".to_owned());
        weather_patterns.push(r"(?i)raining".to_owned());
        weather_patterns.push(r"(?i)sunny".to_owned());
        self.add_intent("get_weather", weather_patterns);

        let mut light_patterns: Vec<String> = Vec::new();
        light_patterns.push(r"(?i)turn.{0,5}(on|off).{0,10}light".to_owned());
        light_patterns.push(r"(?i)light.{0,5}(on|off)".to_owned());
        light_patterns.push(r"(?i)(switch|dim|brighten).{0,10}light".to_owned());
        light_patterns.push(r"(?i)lights.{0,5}(on|off)".to_owned());
        self.add_intent("control_lights", light_patterns);

        let mut greet_patterns: Vec<String> = Vec::new();
        greet_patterns.push(r"(?i)^(hi|hello|hey)($|\s)".to_owned());
        greet_patterns.push(r"(?i)good.{0,5}(morning|evening|afternoon)".to_owned());
        greet_patterns.push(r"(?i)greetings".to_owned());
        self.add_intent("greet", greet_patterns);

        let mut goodbye_patterns: Vec<String> = Vec::new();
        goodbye_patterns.push(r"(?i)(bye|goodbye|farewell)".to_owned());
        goodbye_patterns.push(r"(?i)see.{0,5}you".to_owned());
        goodbye_patterns.push(r"(?i)talk.{0,5}later".to_owned());
        self.add_intent("goodbye", goodbye_patterns);

        proof {
            assert(self@ =~~= spec_default_table());
        }
    }

    fn add_intent(&mut self, intent: &str, patterns: Vec<String>)
        ensures
            final(self)@ == old(self)@.push(
                IntentPatternV { intent: intent@, patterns: patterns.deep_view() },
            ),
    {
        self.patterns.push(IntentPattern { intent: intent.to_owned(), patterns });
        proof {
            assert(self@ =~~= old(self)@.push(
                IntentPatternV {
                    intent: intent@,
                    patterns: final(self).patterns@.last().patterns.deep_view(),
                },
            ));
        }
    }

    /// Classify an utterance: the best-scoring intent over the pattern
    /// table, floored to `unknown`, and the entities for that intent.
    /// Entity spans are byte offsets into the utterance.
    pub fn parse(&self, text: &str) -> (r: (Intent, Vec<Entity>))
        ensures
            r.0@ == spec_intent(self@, text@),
            r.1.deep_view() == spec_entities(text@, spec_intent(self@, text@).name),
            forall|k: int|
                0 <= k < r.1.len() ==> 0 <= #[trigger] r.1.deep_view()[k].start
                    <= r.1.deep_view()[k].end <= byte_len(text@),
    {
        let ghost init: (Seq<char>, int) = ("unknown"@, 0);
        let mut best_name: String = "unknown".to_owned();
        let mut best_conf: u32 = 0;
        let mut i: usize = 0;
        while i < self.patterns.len()
            invariant
                i <= self.patterns.len(),
                self@.len() == self.patterns.len(),
                (best_name@, best_conf as int) == best_in_table(text@, self@, i as int, init),
            decreases self.patterns.len() - i,
        {
            let row = &self.patterns[i];
            let ghost row_base = best_in_table(text@, self@, i as int, init);
            let mut j: usize = 0;
            while j < row.patterns.len()
                invariant
                    j <= row.patterns.len(),
                    row@ == self@[i as int],
                    i < self@.len(),
                    self@.len() == self.patterns.len(),
                    (best_name@, best_conf as int) == best_in_patterns(
                        text@,
                        row@.intent,
                        row@.patterns,
                        j as int,
                        row_base,
                    ),
                decreases row.patterns.len() - j,
            {
                let p = &row.patterns[j];
                match regex_find(p.as_str(), text) {
                    Some(m) => {
                        let c = self.calculate_confidence(text, m.2.as_str());
                        if c > best_conf {
                            best_name = row.intent.clone();
                            best_conf = c;
                        }
                    },
                    None => {},
                }
                j += 1;
            }
            proof {
                assert(best_in_table(text@, self@, i + 1 as int, init) == best_in_patterns(
                    text@,
                    self@[i as int].intent,
                    self@[i as int].patterns,
                    self@[i as int].patterns.len() as int,
                    row_base,
                ));
            }
            i += 1;
        }
        let confidence: u32 = if best_conf == 0 {
            UNKNOWN_CONFIDENCE
        } else {
            best_conf
        };
        let entities = self.extract_entities(text, best_name.as_str());
        (Intent { name: best_name, confidence }, entities)
    }

    /// Score one match against the whole text.
    fn calculate_confidence(&self, text: &str, matched_part: &str) -> (c: u32)
        ensures
            c as int == match_confidence(text@, matched_part@),
    {
        let tl = text.len();
        let ml = matched_part.len();
        proof {
            assert(text.spec_bytes() == vstd::utf8::encode_utf8(text@));
            assert(matched_part.spec_bytes() == vstd::utf8::encode_utf8(matched_part@));
            assert(tl as int == reported_len(text@));
            assert(ml as int == reported_len(matched_part@));
        }
        if tl == 0 {
            return 0;
        }
        let trimmed = trim(text);
        let lowered_text = lowercase(trimmed);
        let lowered_match = lowercase(matched_part);
        let bonus: u32 = if lowered_text == lowered_match {
            EXACTNESS_BONUS
        } else {
            0
        };
        let scored: u128 = (COVERAGE_WEIGHT as u128) * (ml as u128) / (tl as u128) + (
        bonus as u128);
        if scored > MAX_MATCH_CONFIDENCE as u128 {
            MAX_MATCH_CONFIDENCE
        } else {
            scored as u32
        }
    }

    /// Extract the entities the winning intent calls for: a room for
    /// light control, a location phrase for weather.
    fn extract_entities(&self, text: &str, intent: &str) -> (es: Vec<Entity>)
        ensures
            es.deep_view() == spec_entities(text@, intent@),
            forall|k: int|
                0 <= k < es.len() ==> 0 <= #[trigger] es.deep_view()[k].start
                    <= es.deep_view()[k].end <= byte_len(text@),
    {
        let mut es: Vec<Entity> = Vec::new();
        if str_eq_check(intent, "control_lights") {
            match regex_find("(?i)(living room|bedroom|kitchen|bathroom|office)", text) {
                Some(m) => {
                    let value = lowercase(m.2.as_str());
                    es.push(Entity { name: "room".to_owned(), value, start: m.0, end: m.1 });
                },
                None => {},
            }
        }
        if str_eq_check(intent, "get_weather") {
            match regex_capture(r"(?i)(?:in|for|at)\s+([a-zA-Z\s,]+?)(?:\?|$)", text) {
                Some(m) => {
                    let value = trim(m.2.as_str()).to_owned();
                    es.push(
                        Entity { name: "location".to_owned(), value, start: m.0, end: m.1 },
                    );
                },
                None => {},
            }
        }
        proof {
            assert(es.deep_view() =~~= spec_entities(text@, intent@));
        }
        es
    }
}

} // verus!
