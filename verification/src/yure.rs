//! What goes out to the collector: the wire sample, the batcher, and the
//! strings that identify the daemon.

use crate::double::DoubleBits;
use crate::error::{Error, ErrorView};
use crate::fusion::Algorithm;
use crate::queue::MotionSample;
use rand::rngs::ThreadRng;
use rand::seq::IndexedRandom;
use vstd::prelude::*;
use vstd::string::StringExecFns;

verus! {

/// The number of characters of an identifier.
pub const YURE_ID_LEN: usize = 11;

/// The bytes that an identifier is drawn from: the letters of `YUREyure`.
pub const YURE_ID_CHARSET: [u8; 8] = [89, 85, 82, 69, 121, 117, 114, 101];

/// One sample as it goes over the wire. Identifier and user agent are the
/// same for every sample of a run.
#[derive(Debug, Clone, Copy, PartialEq, Eq)]
pub struct YureSample<'a> {
    pub yure_id: &'a str,
    pub user_agent: &'a str,
    pub x: DoubleBits,
    pub y: DoubleBits,
    pub z: DoubleBits,
    /// Milliseconds since the Unix epoch.
    pub t: DoubleBits,
}

/// The wire sample for a motion sample: the three axes in order, and the
/// time.
pub fn outgoing_sample<'a>(motion: &MotionSample, yure_id: &'a str, user_agent: &'a str) -> (sample:
    YureSample<'a>)
    ensures
        sample.yure_id@ == yure_id@,
        sample.user_agent@ == user_agent@,
        sample.x == motion.accel_linear[0],
        sample.y == motion.accel_linear[1],
        sample.z == motion.accel_linear[2],
        sample.t == motion.t_ms,
{
    YureSample {
        yure_id,
        user_agent,
        x: motion.accel_linear[0],
        y: motion.accel_linear[1],
        z: motion.accel_linear[2],
        t: motion.t_ms,
    }
}

/// The items with a comma between each two.
pub open spec fn comma_joined(items: Seq<Seq<char>>) -> Seq<char>
    decreases items.len(),
{
    if items.len() == 0 {
        Seq::empty()
    } else if items.len() == 1 {
        items[0]
    } else {
        comma_joined(items.drop_last()) + ","@ + items.last()
    }
}

/// The JSON array of the items, each of them the text of a JSON value, in
/// the compact form without spaces.
pub open spec fn json_array(items: Seq<Seq<char>>) -> Seq<char> {
    "["@ + comma_joined(items) + "]"@
}

/// The characters of each string of a list.
pub open spec fn texts(items: Seq<String>) -> Seq<Seq<char>> {
    items.map_values(|s: String| s@)
}

/// Collects serialized samples and hands them out as one JSON array each
/// time their number reaches the batch size.
#[derive(Debug, PartialEq, Eq)]
pub struct StreamBatcher {
    batch_size: usize,
    buf: Vec<String>,
}

impl StreamBatcher {
    /// The number of samples that make a batch.
    pub closed spec fn batch_size(&self) -> nat {
        self.batch_size as nat
    }

    /// The samples that wait for their batch, in the order of arrival.
    pub closed spec fn pending(&self) -> Seq<Seq<char>> {
        texts(self.buf@)
    }

    /// A batcher without samples.
    pub fn new(batch_size: usize) -> (batcher: StreamBatcher)
        ensures
            batcher.batch_size() == batch_size,
            batcher.pending() == Seq::<Seq<char>>::empty(),
    {
        let batcher = StreamBatcher { batch_size, buf: Vec::new() };
        assert(batcher.pending() =~= Seq::<Seq<char>>::empty());
        batcher
    }

    /// How many samples wait for their batch.
    pub fn len(&self) -> (n: usize)
        ensures
            n == self.pending().len(),
    {
        self.buf.len()
    }

    /// Takes the JSON text of one sample. Where that completes a batch, the
    /// batch is returned as a JSON array of all its samples in the order of
    /// arrival, and the batcher is empty again; else nothing is returned.
    pub fn push_sample(&mut self, sample: String) -> (batch: Option<String>)
        ensures
            final(self).batch_size() == old(self).batch_size(),
            old(self).pending().len() + 1 < old(self).batch_size() ==> batch is None && final(self).pending() == old(self).pending().push(sample@),
            old(self).pending().len() + 1 >= old(self).batch_size() ==> (batch matches Some(json)
                && json@ == json_array(old(self).pending().push(sample@))) && final(self).pending() == Seq::<Seq<char>>::empty(),
    {
        self.buf.push(sample);
        assert(texts(self.buf@) =~= old(self).pending().push(sample@));
        if self.buf.len() < self.batch_size {
            return None;
        }
        let mut json = "[".to_owned();
        let mut i: usize = 0;
        while i < self.buf.len()
            invariant
                i <= self.buf.len(),
                json@ == "["@ + comma_joined(texts(self.buf@).take(i as int)),
            decreases self.buf.len() - i,
        {
            let ghost before = texts(self.buf@).take(i as int);
            let ghost after = texts(self.buf@).take(i + 1);
            assert(after.drop_last() =~= before);
            assert(after.last() == self.buf@[i as int]@);
            if i > 0 {
                json.append(",");
            }
            json.append(self.buf[i].as_str());
            assert(json@ =~= "["@ + comma_joined(after));
            i += 1;
        }
        assert(texts(self.buf@).take(i as int) =~= texts(self.buf@));
        json.append("]");
        self.buf.clear();
        assert(texts(self.buf@) =~= Seq::<Seq<char>>::empty());
        Some(json)
    }

    /// Takes what the serialization of one sample gave. A sample that
    /// could not be serialized is lost and reported with the cause, and the
    /// samples that wait stay as they are; a serialized sample is taken as
    /// [`StreamBatcher::push_sample`] takes it.
    pub fn push_serialized(&mut self, serialized: Result<String, String>) -> (batch: Result<
        Option<String>,
        Error,
    >)
        ensures
            final(self).batch_size() == old(self).batch_size(),
            serialized matches Err(cause) ==> (batch matches Err(e) && e@ == ErrorView::Json(
                cause@,
            )) && final(self).pending() == old(self).pending(),
            serialized matches Ok(text) ==> (old(self).pending().len() + 1 < old(self).batch_size() ==> batch == Ok::<Option<String>, Error>(None) && final(self).pending()
                == old(self).pending().push(text@)),
            serialized matches Ok(text) ==> (old(self).pending().len() + 1 >= old(self).batch_size() ==> (batch matches Ok(Some(json)) && json@ == json_array(
                old(self).pending().push(text@),
            )) && final(self).pending() == Seq::<Seq<char>>::empty()),
    {
        match serialized {
            Err(cause) => Err(Error::Json(cause)),
            Ok(text) => Ok(self.push_sample(text)),
        }
    }
}

/// What a batcher holds and has handed out after it took `samples` one by
/// one, starting with `pending`.
pub open spec fn fed(batch_size: nat, pending: Seq<Seq<char>>, samples: Seq<Seq<char>>) -> (
    Seq<Seq<char>>,
    Seq<Seq<char>>,
)
    decreases samples.len(),
{
    if samples.len() == 0 {
        (pending, Seq::empty())
    } else {
        let (held, out) = fed(batch_size, pending, samples.drop_last());
        if held.len() + 1 < batch_size {
            (held.push(samples.last()), out)
        } else {
            (Seq::empty(), out.push(json_array(held.push(samples.last()))))
        }
    }
}

/// Fewer samples than a batch give no output, and all of them wait in the
/// order of arrival.
pub proof fn lemma_partial_batch(batch_size: nat, samples: Seq<Seq<char>>)
    requires
        samples.len() < batch_size,
    ensures
        fed(batch_size, Seq::empty(), samples) == (samples, Seq::<Seq<char>>::empty()),
    decreases samples.len(),
{
    if samples.len() > 0 {
        lemma_partial_batch(batch_size, samples.drop_last());
        assert(samples.drop_last().push(samples.last()) == samples);
    }
}

/// Exactly as many samples as a batch give one array that holds all of
/// them in the order of arrival, and leave the batcher empty.
pub proof fn lemma_full_batch(batch_size: nat, samples: Seq<Seq<char>>)
    requires
        batch_size >= 1,
        samples.len() == batch_size,
    ensures
        fed(batch_size, Seq::empty(), samples) == (
            Seq::<Seq<char>>::empty(),
            seq![json_array(samples)],
        ),
{
    lemma_partial_batch(batch_size, samples.drop_last());
    assert(samples.drop_last().push(samples.last()) == samples);
    assert(Seq::<Seq<char>>::empty().push(json_array(samples)) == seq![json_array(samples)]);
}

/// `rand::rngs::ThreadRng`, the random number generator of the thread.
#[verifier::external_type_specification]
#[verifier::external_body]
pub struct ExThreadRng(ThreadRng);

/// `rand::rng`: a handle to the thread's generator. It panics where the
/// system cannot seed the generator.
#[verifier::external_body]
fn thread_rng() -> ThreadRng {
    rand::rng()
}

/// `IndexedRandom::choose` on a slice of bytes: one of the bytes, picked
/// at random, or `None` where the slice is empty.
#[verifier::external_body]
fn choose_byte(choices: &[u8], rng: &mut ThreadRng) -> (picked: Option<u8>)
    ensures
        choices@.len() == 0 ==> picked is None,
        choices@.len() > 0 ==> picked is Some && choices@.contains(picked->0),
{
    choices.choose(rng).copied()
}

/// The characters that bytes below 128 stand for.
pub open spec fn ascii_chars(bytes: Seq<u8>) -> Seq<char> {
    bytes.map_values(|b: u8| b as char)
}

/// Whether `id` is an identifier: eleven characters, each a letter of
/// `YUREyure`.
pub open spec fn is_yure_id(id: Seq<char>) -> bool {
    &&& id.len() == YURE_ID_LEN
    &&& forall|i: int| 0 <= i < id.len() ==> YURE_ID_CHARSET@.contains(#[trigger] id[i] as u8)
    &&& forall|i: int| 0 <= i < id.len() ==> (#[trigger] id[i] as u32) < 128
}

/// The letter that a byte of the character set stands for, `None` for any
/// other byte.
fn letter(b: u8) -> (text: Option<&'static str>)
    ensures
        text is Some <==> YURE_ID_CHARSET@.contains(b),
        text matches Some(t) ==> t@ == seq![b as char],
{
    proof {
        reveal_strlit("Y");
        reveal_strlit("U");
        reveal_strlit("R");
        reveal_strlit("E");
        reveal_strlit("y");
        reveal_strlit("u");
        reveal_strlit("r");
        reveal_strlit("e");
        lemma_charset();
    }
    let text = if b == 89 {
        Some("Y")
    } else if b == 85 {
        Some("U")
    } else if b == 82 {
        Some("R")
    } else if b == 69 {
        Some("E")
    } else if b == 121 {
        Some("y")
    } else if b == 117 {
        Some("u")
    } else if b == 114 {
        Some("r")
    } else if b == 101 {
        Some("e")
    } else {
        None
    };
    assert(text matches Some(t) ==> t@ =~= seq![b as char]);
    text
}

/// The identifier that the picked bytes spell, where there are eleven of
/// them, each out of the character set.
pub fn yure_id_from(picks: Vec<u8>) -> (id: Option<String>)
    ensures
        picks@.len() == YURE_ID_LEN && (forall|i: int|
            0 <= i < picks@.len() ==> YURE_ID_CHARSET@.contains(#[trigger] picks@[i])) <==> id
            is Some,
        id matches Some(s) ==> s@ == ascii_chars(picks@) && is_yure_id(s@),
{
    if picks.len() != YURE_ID_LEN {
        return None;
    }
    let mut id = String::new();
    let mut i: usize = 0;
    while i < picks.len()
        invariant
            i <= picks.len(),
            id@ == ascii_chars(picks@.take(i as int)),
            forall|j: int| 0 <= j < i ==> YURE_ID_CHARSET@.contains(#[trigger] picks@[j]),
        decreases picks.len() - i,
    {
        match letter(picks[i]) {
            None => {
                return None;
            },
            Some(text) => {
                id.append(text);
                assert(id@ =~= ascii_chars(picks@.take(i + 1)));
            },
        }
        i += 1;
    }
    proof {
        assert(picks@.take(i as int) =~= picks@);
        lemma_charset();
        assert forall|j: int| 0 <= j < id@.len() implies YURE_ID_CHARSET@.contains(
            #[trigger] id@[j] as u8,
        ) && (id@[j] as u32) < 128 by {
            assert(YURE_ID_CHARSET@.contains(picks@[j]));
            assert(id@[j] == picks@[j] as char);
        }
    }
    Some(id)
}

/// The bytes of the character set, one by one.
pub proof fn lemma_charset()
    ensures
        forall|b: u8|
            YURE_ID_CHARSET@.contains(b) <==> b == 89 || b == 85 || b == 82 || b == 69 || b == 121
                || b == 117 || b == 114 || b == 101,
{
    let c = YURE_ID_CHARSET@;
    assert(c.len() == 8);
    assert(c[0] == 89 && c[1] == 85 && c[2] == 82 && c[3] == 69 && c[4] == 121 && c[5] == 117
        && c[6] == 114 && c[7] == 101);
}

/// A fresh identifier for a run of the daemon: eleven characters drawn at
/// random from the letters of `YUREyure`.
pub fn generate_yure_id() -> (id: String)
    ensures
        is_yure_id(id@),
{
    let charset = YURE_ID_CHARSET;
    let mut rng = thread_rng();
    let mut picks: Vec<u8> = Vec::new();
    while picks.len() < YURE_ID_LEN
        invariant
            picks.len() <= YURE_ID_LEN,
            charset@ == YURE_ID_CHARSET@,
            forall|j: int| 0 <= j < picks@.len() ==> YURE_ID_CHARSET@.contains(#[trigger] picks@[j]),
        decreases YURE_ID_LEN - picks.len(),
    {
        assert(charset@.len() == 8);
        let picked = choose_byte(charset.as_slice(), &mut rng);
        match picked {
            Some(b) => {
                picks.push(b);
            },
            None => {
                assert(false);
            },
        }
    }
    match yure_id_from(picks) {
        Some(id) => id,
        None => {
            assert(false);
            String::new()
        },
    }
}

/// What the system tells of itself.
#[derive(Debug, Clone, PartialEq, Eq)]
pub struct Platform {
    /// Name and version of the program.
    pub app_name: String,
    pub app_version: String,
    /// The distribution's name, where the system states one.
    pub distribution: Option<String>,
    /// The kind of operating system, where the system states it.
    pub os_type: Option<String>,
    /// The release of the operating system, where the system states it.
    pub os_release: Option<String>,
    /// The processor architecture.
    pub arch: String,
}

/// The name of the system in the user agent: the distribution's, else the
/// kind of operating system, else `Unknown`.
pub open spec fn system_name(platform: Platform) -> Seq<char> {
    match platform.distribution {
        Some(name) => name@,
        None => match platform.os_type {
            Some(kind) => kind@,
            None => "Unknown"@,
        },
    }
}

/// The release of the system in the user agent, `unknown` where the system
/// states none.
pub open spec fn system_release(platform: Platform) -> Seq<char> {
    match platform.os_release {
        Some(release) => release@,
        None => "unknown"@,
    }
}

/// The user agent: program, version and estimator, then the system's name,
/// release and architecture.
pub open spec fn user_agent_text(algo: Algorithm, platform: Platform) -> Seq<char> {
    platform.app_name@ + " v"@ + platform.app_version@ + "-"@ + algo.text() + " on "@
        + system_name(platform) + " "@ + system_release(platform) + " "@ + platform.arch@
}

/// The user agent that the daemon sends with every sample.
pub fn generate_user_agent(algo: Algorithm, platform: &Platform) -> (agent: String)
    ensures
        agent@ == user_agent_text(algo, *platform),
{
    let mut agent = platform.app_name.clone();
    agent.append(" v");
    agent.append(platform.app_version.as_str());
    agent.append("-");
    agent.append(algo.name());
    agent.append(" on ");
    match &platform.distribution {
        Some(name) => {
            agent.append(name.as_str());
        },
        None => match &platform.os_type {
            Some(kind) => {
                agent.append(kind.as_str());
            },
            None => {
                agent.append("Unknown");
            },
        },
    }
    agent.append(" ");
    match &platform.os_release {
        Some(release) => {
            agent.append(release.as_str());
        },
        None => {
            agent.append("unknown");
        },
    }
    agent.append(" ");
    agent.append(platform.arch.as_str());
    agent
}

} // verus!
