use vstd::prelude::*;

verus! {

/// The six prosody values that the caller sets on every query.
///
/// `F` is the engine's scalar type; the library only moves these values.
#[derive(Debug, Clone)]
pub struct Prosody<F> {
    pub speed: F,
    pub pitch: F,
    pub intonation: F,
    pub volume: F,
    pub pre_phoneme: F,
    pub post_phoneme: F,
}

/// The engine's synthesis descriptor.
///
/// `P` is one accent phrase, opaque to the library; `F` is the scalar type of
/// the six prosody fields.
#[derive(Debug, Clone)]
pub struct AudioQuery<P, F> {
    pub accent_phrases: Vec<P>,
    pub speed_scale: F,
    pub pitch_scale: F,
    pub intonation_scale: F,
    pub volume_scale: F,
    pub pre_phoneme_length: F,
    pub post_phoneme_length: F,
    pub output_sampling_rate: u32,
    pub output_stereo: bool,
    pub kana: String,
}

impl<P, F> AudioQuery<P, F> {
    /// The six prosody fields of the query.
    pub open spec fn prosody(self) -> Prosody<F> {
        Prosody {
            speed: self.speed_scale,
            pitch: self.pitch_scale,
            intonation: self.intonation_scale,
            volume: self.volume_scale,
            pre_phoneme: self.pre_phoneme_length,
            post_phoneme: self.post_phoneme_length,
        }
    }

    /// The query with its accent phrases replaced by `phrases`, when given,
    /// and its six prosody fields overwritten by `prosody`; every other field
    /// is kept.
    pub open spec fn assembled(self, phrases: Option<Vec<P>>, prosody: Prosody<F>) -> AudioQuery<P, F> {
        AudioQuery {
            accent_phrases: match phrases {
                Some(p) => p,
                None => self.accent_phrases,
            },
            speed_scale: prosody.speed,
            pitch_scale: prosody.pitch,
            intonation_scale: prosody.intonation,
            volume_scale: prosody.volume,
            pre_phoneme_length: prosody.pre_phoneme,
            post_phoneme_length: prosody.post_phoneme,
            output_sampling_rate: self.output_sampling_rate,
            output_stereo: self.output_stereo,
            kana: self.kana,
        }
    }
}

/// Builds the query to synthesize from the engine's default query: in
/// phonetic mode `phrases` holds the accent phrases fetched for the phonetic
/// text and replaces the default ones; the prosody is always overwritten.
pub fn assemble<P, F>(query: AudioQuery<P, F>, phrases: Option<Vec<P>>, prosody: Prosody<F>) -> (r:
    AudioQuery<P, F>)
    ensures
        r == query.assembled(phrases, prosody),
{
    let accent_phrases = match phrases {
        Some(p) => p,
        None => query.accent_phrases,
    };
    AudioQuery {
        accent_phrases,
        speed_scale: prosody.speed,
        pitch_scale: prosody.pitch,
        intonation_scale: prosody.intonation,
        volume_scale: prosody.volume,
        pre_phoneme_length: prosody.pre_phoneme,
        post_phoneme_length: prosody.post_phoneme,
        output_sampling_rate: query.output_sampling_rate,
        output_stereo: query.output_stereo,
        kana: query.kana,
    }
}

/// Outside phonetic mode, assembling with the prosody that the engine's
/// default query already carries gives back that query unchanged.
pub proof fn law_plain_defaults_keep_query<P, F>(query: AudioQuery<P, F>, prosody: Prosody<F>)
    requires
        prosody == query.prosody(),
    ensures
        query.assembled(None, prosody) == query,
{
}

/// In phonetic mode the assembled query carries exactly the fetched accent
/// phrases; its sampling parameters and phonetic string come from the
/// default query, and its prosody is the override.
pub proof fn law_phonetic_phrases_replace<P, F>(
    query: AudioQuery<P, F>,
    phrases: Vec<P>,
    prosody: Prosody<F>,
)
    ensures
        query.assembled(Some(phrases), prosody).accent_phrases == phrases,
        query.assembled(Some(phrases), prosody).output_sampling_rate == query.output_sampling_rate,
        query.assembled(Some(phrases), prosody).output_stereo == query.output_stereo,
        query.assembled(Some(phrases), prosody).kana == query.kana,
        query.assembled(Some(phrases), prosody).prosody() == prosody,
{
}

} // verus!
