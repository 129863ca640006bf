use vstd::prelude::*;
use crate::text::{
    decimal, lemma_decimal_has_no_underscore, lemma_decimal_injective, push_char, push_decimal,
};

verus! {

/// hound's description of a WAV stream; its fields are public and plain.
#[verifier::external_type_specification]
pub struct ExWavSpec(hound::WavSpec);

/// hound's choice between float and integer samples.
#[verifier::external_type_specification]
pub struct ExWavSampleFormat(hound::SampleFormat);

/// Bits per sample of a snapshot file.
pub const SNAPSHOT_BITS: u16 = 16;

/// The format snapshots are written in: 16-bit integer PCM with the session's
/// sample rate and channel count.
pub fn snapshot_spec(sample_rate: u32, channels: u16) -> (r: hound::WavSpec)
    ensures
        r.channels == channels,
        r.sample_rate == sample_rate,
        r.bits_per_sample == SNAPSHOT_BITS,
        r.sample_format == hound::SampleFormat::Int,
{
    hound::WavSpec {
        channels,
        sample_rate,
        bits_per_sample: SNAPSHOT_BITS,
        sample_format: hound::SampleFormat::Int,
    }
}

/// The name of the cache directory of the process with the given id.
pub open spec fn cache_dir_name_of(process_id: u32) -> Seq<char> {
    "voice-input-app-"@ + decimal(process_id as nat)
}

/// The snapshot path `<dir>/<prefix>_<millis>_<serial>.wav`.
pub open spec fn snapshot_path(dir: Seq<char>, prefix: Seq<char>, millis: u64, serial: u64) -> Seq<char> {
    dir + seq!['/'] + prefix + seq!['_'] + decimal(millis as nat) + seq!['_'] + decimal(serial as nat)
        + ".wav"@
}

/// Relies on std::time::SystemTime::elapsed, applied to UNIX_EPOCH: the
/// wall-clock time in milliseconds, or zero for a clock set before 1970.
/// Nothing is promised of the value: clocks jump.
#[verifier::external_body]
fn unix_millis() -> u64 {
    match std::time::UNIX_EPOCH.elapsed() {
        Ok(d) => d.as_millis() as u64,
        Err(_) => 0,
    }
}

/// The name of the cache directory of the process with the given id.
pub fn cache_dir_name(process_id: u32) -> (r: String)
    ensures
        r@ == cache_dir_name_of(process_id),
{
    let mut name = String::from_str("voice-input-app-");
    push_decimal(&mut name, process_id as u64);
    name
}

/// A process-lifetime directory for snapshots, handing out a fresh path for
/// each request.
pub struct AudioCache {
    cache_dir: String,
    issued: u64,
}

impl AudioCache {
    /// The directory paths are made in.
    pub closed spec fn dir_view(&self) -> Seq<char> {
        self.cache_dir@
    }

    /// How many paths were handed out so far.
    pub closed spec fn issued_count(&self) -> u64 {
        self.issued
    }

    /// A cache over an existing directory, with no path handed out yet.
    pub fn new(cache_dir: String) -> (r: AudioCache)
        ensures
            r.dir_view() == cache_dir@,
            r.issued_count() == 0,
    {
        AudioCache { cache_dir, issued: 0 }
    }

    pub fn dir(&self) -> (r: &String)
        ensures
            r@ == self.dir_view(),
    {
        &self.cache_dir
    }

    /// The path for `prefix` at the given wall-clock time, numbered with the
    /// count of paths handed out so far.
    pub fn wav_path_at(&self, prefix: &str, millis: u64) -> (r: String)
        ensures
            r@ == snapshot_path(self.dir_view(), prefix@, millis, self.issued_count()),
    {
        let mut path = self.cache_dir.clone();
        push_char(&mut path, '/');
        path.append(prefix);
        push_char(&mut path, '_');
        push_decimal(&mut path, millis);
        push_char(&mut path, '_');
        push_decimal(&mut path, self.issued);
        path.append(".wav");
        path
    }

    /// A fresh path for a snapshot whose name starts with `prefix`; the
    /// serial part is one above that of the previous path.
    pub fn generate_wav_path(&mut self, prefix: &str) -> (r: String)
        ensures
            exists|millis: u64| r@ == snapshot_path(old(self).dir_view(), prefix@, millis, old(self).issued_count()),
            final(self).dir_view() == old(self).dir_view(),
            final(self).issued_count() == if old(self).issued_count() < u64::MAX {
                (old(self).issued_count() + 1) as u64
            } else {
                old(self).issued_count()
            },
    {
        let millis = unix_millis();
        let path = self.wav_path_at(prefix, millis);
        if self.issued < u64::MAX {
            self.issued = self.issued + 1;
        }
        path
    }
}

/// Paths made under different serial numbers differ, whatever their prefixes
/// and clock readings; so the paths one cache hands out never repeat.
pub proof fn lemma_snapshot_paths_differ(
    dir: Seq<char>,
    prefix1: Seq<char>,
    prefix2: Seq<char>,
    millis1: u64,
    millis2: u64,
    serial1: u64,
    serial2: u64,
)
    requires
        serial1 != serial2,
    ensures
        snapshot_path(dir, prefix1, millis1, serial1) != snapshot_path(dir, prefix2, millis2, serial2),
{
    let a1 = dir + seq!['/'] + prefix1 + seq!['_'] + decimal(millis1 as nat) + seq!['_'];
    let a2 = dir + seq!['/'] + prefix2 + seq!['_'] + decimal(millis2 as nat) + seq!['_'];
    let d1 = decimal(serial1 as nat);
    let d2 = decimal(serial2 as nat);
    let s1 = snapshot_path(dir, prefix1, millis1, serial1);
    let s2 = snapshot_path(dir, prefix2, millis2, serial2);
    reveal_strlit(".wav");
    assert(".wav"@.len() == 4);
    lemma_decimal_has_no_underscore(serial1 as nat);
    lemma_decimal_has_no_underscore(serial2 as nat);
    assert(s1 == a1 + d1 + ".wav"@);
    assert(s2 == a2 + d2 + ".wav"@);
    if s1 == s2 {
        assert(s1[a1.len() - 1] == '_');
        assert(s2[a2.len() - 1] == '_');
        if d1.len() < d2.len() {
            let j = a1.len() - 1;
            assert(a2.len() <= j < a2.len() + d2.len());
            assert(s2[j] == d2[j - a2.len()]);
            assert(false);
        } else if d2.len() < d1.len() {
            let j = a2.len() - 1;
            assert(a1.len() <= j < a1.len() + d1.len());
            assert(s1[j] == d1[j - a1.len()]);
            assert(false);
        } else {
            assert(a1.len() == a2.len());
            assert(d1 =~= s1.subrange(a1.len() as int, (a1.len() + d1.len()) as int));
            assert(d2 =~= s2.subrange(a2.len() as int, (a2.len() + d2.len()) as int));
            lemma_decimal_injective(serial1 as nat, serial2 as nat);
        }
    }
}

} // verus!
