//! The messages that the realtime client sends.
use crate::encoding::{base64_text, encodable, encode};
use crate::json::{
    array_text, array_value, ascending_keys, comma_separated, member_text, null_value,
    number_value, object_text, object_value, quoted, string_value, text_before, to_text,
    unescaped, value_text,
};
use crate::text::decimal;
use serde_json::Value;
use vstd::prelude::*;

verus! {

/// The address of the realtime service.
pub const WS_URL: &'static str = "wss://api.openai.com/v1/realtime?model=gpt-realtime";

/// The sample rate of the audio that the realtime service takes.
pub const OPENAI_AUDIO_RATE: u32 = 24_000;

/// A JSON object whose only member says what kind of message it is.
pub open spec fn tagged_text(kind: Seq<char>) -> Seq<char> {
    object_text(seq![member_text("type"@, quoted(kind))])
}

/// The message that turns the buffered audio into a turn of the conversation.
pub open spec fn commit_text() -> Seq<char> {
    tagged_text("input_audio_buffer.commit"@)
}

/// The message that asks for a response.
pub open spec fn create_text() -> Seq<char> {
    tagged_text("response.create"@)
}

/// The message that adds `pcm` to the buffered audio.
pub open spec fn append_text(pcm: Seq<u8>) -> Seq<char> {
    object_text(
        seq![
            member_text("audio"@, quoted(base64_text(pcm))),
            member_text("type"@, quoted("input_audio_buffer.append"@)),
        ],
    )
}

/// The audio that the session takes: PCM at [`OPENAI_AUDIO_RATE`], with no turn detection
/// by the service.
pub open spec fn audio_input_text() -> Seq<char> {
    object_text(
        seq![
            member_text(
                "format"@,
                object_text(
                    seq![
                        member_text("rate"@, decimal(OPENAI_AUDIO_RATE as nat)),
                        member_text("type"@, quoted("audio/pcm"@)),
                    ],
                ),
            ),
            member_text("turn_detection"@, "null"@),
        ],
    )
}

/// The settings of the session: what it takes, what it is to do with it, and that it
/// answers in text.
pub open spec fn session_text() -> Seq<char> {
    object_text(
        seq![
            member_text("audio"@, object_text(seq![member_text("input"@, audio_input_text())])),
            member_text(
                "instructions"@,
                quoted("Output only the Czech translation of the spoken audio."@),
            ),
            member_text("output_modalities"@, array_text(seq![quoted("text"@)])),
            member_text("type"@, quoted("realtime"@)),
        ],
    )
}

/// The message that sets the session up.
pub open spec fn session_update_text() -> Seq<char> {
    object_text(
        seq![
            member_text("session"@, session_text()),
            member_text("type"@, quoted("session.update"@)),
        ],
    )
}

fn one_member(key: &str, value: Value) -> (r: Value)
    requires
        unescaped(key@),
    ensures
        value_text(r) == object_text(seq![member_text(key@, value_text(value))]),
{
    let fields: Vec<(String, Value)> = vec![(key.to_owned(), value)];
    assert(fields@.map_values(|f: (String, Value)| member_text(f.0@, value_text(f.1)))
        =~= seq![member_text(key@, value_text(value))]);
    object_value(fields)
}

fn two_members(key1: &str, value1: Value, key2: &str, value2: Value) -> (r: Value)
    requires
        unescaped(key1@),
        unescaped(key2@),
        text_before(key1@, key2@),
    ensures
        value_text(r) == object_text(
            seq![member_text(key1@, value_text(value1)), member_text(key2@, value_text(value2))],
        ),
{
    let fields: Vec<(String, Value)> = vec![(key1.to_owned(), value1), (key2.to_owned(), value2)];
    assert(fields@.map_values(|f: (String, Value)| member_text(f.0@, value_text(f.1)))
        =~= seq![member_text(key1@, value_text(value1)), member_text(key2@, value_text(value2))]);
    object_value(fields)
}

fn audio_input() -> (r: Value)
    ensures
        value_text(r) == audio_input_text(),
{
    proof {
        reveal_strlit("format");
        reveal_strlit("rate");
        reveal_strlit("type");
        reveal_strlit("turn_detection");
        reveal_strlit("audio/pcm");
    }
    let format = two_members(
        "rate",
        number_value(OPENAI_AUDIO_RATE),
        "type",
        string_value("audio/pcm"),
    );
    two_members("format", format, "turn_detection", null_value())
}

fn session_settings() -> (r: Value)
    ensures
        value_text(r) == session_text(),
{
    proof {
        reveal_strlit("audio");
        reveal_strlit("input");
        reveal_strlit("instructions");
        reveal_strlit("Output only the Czech translation of the spoken audio.");
        reveal_strlit("output_modalities");
        reveal_strlit("text");
        reveal_strlit("type");
        reveal_strlit("realtime");
    }
    let audio = one_member("input", audio_input());
    let instructions = string_value("Output only the Czech translation of the spoken audio.");
    let modes: Vec<Value> = vec![string_value("text")];
    assert(modes@.map_values(|v: Value| value_text(v)) =~= seq![quoted("text"@)]);
    let modalities = array_value(modes);
    let kind = string_value("realtime");
    let fields: Vec<(String, Value)> = vec![
        ("audio".to_owned(), audio),
        ("instructions".to_owned(), instructions),
        ("output_modalities".to_owned(), modalities),
        ("type".to_owned(), kind),
    ];
    assert(fields@.map_values(|f: (String, Value)| member_text(f.0@, value_text(f.1))) =~= seq![
        member_text("audio"@, object_text(seq![member_text("input"@, audio_input_text())])),
        member_text(
            "instructions"@,
            quoted("Output only the Czech translation of the spoken audio."@),
        ),
        member_text("output_modalities"@, array_text(seq![quoted("text"@)])),
        member_text("type"@, quoted("realtime"@)),
    ]);
    assert(ascending_keys(fields@));
    object_value(fields)
}

/// The value whose text sets the session up.
pub fn build_session_update() -> (r: Value)
    ensures
        value_text(r) == session_update_text(),
{
    proof {
        reveal_strlit("session");
        reveal_strlit("type");
        reveal_strlit("session.update");
    }
    two_members("session", session_settings(), "type", string_value("session.update"))
}

/// The message that sets the session up.
pub fn session_update_message() -> (r: String)
    ensures
        r@ == session_update_text(),
{
    to_text(&build_session_update())
}

/// The message that adds `pcm` to the buffered audio.
pub fn append_message(pcm: &[u8]) -> (r: String)
    requires
        encodable(pcm@.len()),
    ensures
        r@ == append_text(pcm@),
{
    proof {
        reveal_strlit("audio");
        reveal_strlit("type");
        reveal_strlit("input_audio_buffer.append");
        crate::encoding::law_base64_unescaped(pcm@);
    }
    let audio = encode(pcm);
    let value = two_members(
        "audio",
        string_value(audio.as_str()),
        "type",
        string_value("input_audio_buffer.append"),
    );
    to_text(&value)
}

/// The message that turns the buffered audio into a turn of the conversation.
pub fn commit_message() -> (r: String)
    ensures
        r@ == commit_text(),
{
    proof {
        reveal_strlit("type");
        reveal_strlit("input_audio_buffer.commit");
    }
    to_text(&one_member("type", string_value("input_audio_buffer.commit")))
}

/// The message that asks for a response.
pub fn create_message() -> (r: String)
    ensures
        r@ == create_text(),
{
    proof {
        reveal_strlit("type");
        reveal_strlit("response.create");
    }
    to_text(&one_member("type", string_value("response.create")))
}

/// Two append messages with the same text carry the same audio.
pub proof fn law_append_tells_audio(a: Seq<u8>, b: Seq<u8>)
    requires
        append_text(a) == append_text(b),
    ensures
        a == b,
{
    let kind = member_text("type"@, quoted("input_audio_buffer.append"@));
    let ma = member_text("audio"@, quoted(base64_text(a)));
    let mb = member_text("audio"@, quoted(base64_text(b)));
    lemma_pair(ma, kind);
    lemma_pair(mb, kind);
    let head = seq!['{'] + quoted("audio"@) + seq![':'] + seq!['"'];
    let tail = seq!['"'] + seq![','] + kind + seq!['}'];
    assert(append_text(a) =~= head + base64_text(a) + tail);
    assert(append_text(b) =~= head + base64_text(b) + tail);
    let n = base64_text(a).len();
    assert(n == base64_text(b).len());
    assert(base64_text(a) =~= append_text(a).subrange(head.len() as int, (head.len() + n) as int));
    assert(base64_text(b) =~= append_text(b).subrange(head.len() as int, (head.len() + n) as int));
    crate::encoding::law_base64_injective(a, b);
}

proof fn lemma_pair(a: Seq<char>, b: Seq<char>)
    ensures
        object_text(seq![a, b]) == seq!['{'] + (a + seq![','] + b) + seq!['}'],
{
    reveal_with_fuel(comma_separated, 2);
    assert(seq![a, b].drop_last() =~= seq![a]);
}

/// A message that sends audio is none of those that send a turn, and none of them is the
/// message that sets the session up.
pub proof fn law_messages_differ(pcm: Seq<u8>)
    ensures
        append_text(pcm) != commit_text(),
        append_text(pcm) != create_text(),
        append_text(pcm) != session_update_text(),
        commit_text() != session_update_text(),
        create_text() != session_update_text(),
{
    reveal_strlit("audio");
    reveal_strlit("session");
    reveal_strlit("type");
    let kind = member_text("type"@, quoted("session.update"@));
    lemma_key_shows("session"@, session_text(), seq![kind]);
    lemma_key_shows(
        "audio"@,
        quoted(base64_text(pcm)),
        seq![member_text("type"@, quoted("input_audio_buffer.append"@))],
    );
    lemma_key_shows("type"@, quoted("input_audio_buffer.commit"@), seq![]);
    lemma_key_shows("type"@, quoted("response.create"@), seq![]);
    let update = seq![member_text("session"@, session_text())] + seq![kind];
    assert(update =~= seq![member_text("session"@, session_text()), kind]);
    let append = seq![member_text("audio"@, quoted(base64_text(pcm)))] + seq![
        member_text("type"@, quoted("input_audio_buffer.append"@)),
    ];
    assert(append =~= seq![
        member_text("audio"@, quoted(base64_text(pcm))),
        member_text("type"@, quoted("input_audio_buffer.append"@)),
    ]);
    let commit = member_text("type"@, quoted("input_audio_buffer.commit"@));
    assert(seq![commit] + Seq::<Seq<char>>::empty() =~= seq![commit]);
    let create = member_text("type"@, quoted("response.create"@));
    assert(seq![create] + Seq::<Seq<char>>::empty() =~= seq![create]);
    assert(session_update_text()[2] == 's');
    assert(append_text(pcm)[2] == 'a');
    assert(commit_text()[2] == 't');
    assert(create_text()[2] == 't');
}

/// The first key of an object starts at the third character of its text.
proof fn lemma_key_shows(key: Seq<char>, value: Seq<char>, rest: Seq<Seq<char>>)
    requires
        key.len() > 0,
        rest.len() <= 1,
    ensures
        object_text(seq![member_text(key, value)] + rest)[2] == key[0],
{
    let m = member_text(key, value);
    let members = seq![m] + rest;
    assert(m[1] == key[0]);
    reveal_with_fuel(comma_separated, 2);
    if rest.len() == 0 {
        assert(members[0] == m);
        assert(comma_separated(members) == m);
    } else {
        assert(members.drop_last() =~= seq![m]);
        assert(comma_separated(members) == m + seq![','] + rest[0]);
    }
    assert(comma_separated(members)[1] == m[1]);
    assert(object_text(members)[2] == comma_separated(members)[1]);
}

/// The messages that send a turn, as they are written.
pub proof fn law_turn_texts()
    ensures
        commit_text() == "{\"type\":\"input_audio_buffer.commit\"}"@,
        create_text() == "{\"type\":\"response.create\"}"@,
{
    reveal_strlit("{\"type\":\"input_audio_buffer.commit\"}");
    reveal_strlit("{\"type\":\"response.create\"}");
    reveal_strlit("type");
    reveal_strlit("input_audio_buffer.commit");
    reveal_strlit("response.create");
    assert(commit_text() =~= "{\"type\":\"input_audio_buffer.commit\"}"@);
    assert(create_text() =~= "{\"type\":\"response.create\"}"@);
}

/// The message that sends audio, as it is written: the base64 text of all of it between what is
/// the same for all audio.
pub proof fn law_append_text(pcm: Seq<u8>)
    ensures
        append_text(pcm) == "{\"audio\":\""@ + base64_text(pcm)
            + "\",\"type\":\"input_audio_buffer.append\"}"@,
{
    reveal_strlit("{\"audio\":\"");
    reveal_strlit("\",\"type\":\"input_audio_buffer.append\"}");
    reveal_strlit("audio");
    reveal_strlit("type");
    reveal_strlit("input_audio_buffer.append");
    let kind = member_text("type"@, quoted("input_audio_buffer.append"@));
    lemma_pair(member_text("audio"@, quoted(base64_text(pcm))), kind);
    assert(append_text(pcm) =~= "{\"audio\":\""@ + base64_text(pcm)
        + "\",\"type\":\"input_audio_buffer.append\"}"@);
}

/// The message that sets the session up, as it is written: PCM at 24000 Hz with no turn
/// detection, the instructions, and an answer in text.
pub proof fn law_session_update_text()
    ensures
        session_update_text() == "{\"session\":{\"audio\":{\"input\":"@
            + "{\"format\":{\"rate\":24000,\"type\":\"audio/pcm\"},\"turn_detection\":null}"@
            + "},\"instructions\":\""@ + "Output only the Czech translation of the spoken audio."@
            + "\",\"output_modalities\":[\"text\"],\"type\":\"realtime\"},\"type\":\"session.update\"}"@,
{
    lemma_audio_input_text();
    lemma_session_text();
    reveal_strlit("session");
    reveal_strlit("type");
    reveal_strlit("session.update");
    reveal_strlit("{\"session\":{\"audio\":{\"input\":");
    reveal_strlit("{\"audio\":{\"input\":");
    reveal_strlit("\",\"output_modalities\":[\"text\"],\"type\":\"realtime\"}");
    reveal_strlit("\",\"output_modalities\":[\"text\"],\"type\":\"realtime\"},\"type\":\"session.update\"}");
    lemma_pair(
        member_text("session"@, session_text()),
        member_text("type"@, quoted("session.update"@)),
    );
    assert(session_update_text() =~= "{\"session\":{\"audio\":{\"input\":"@
        + "{\"format\":{\"rate\":24000,\"type\":\"audio/pcm\"},\"turn_detection\":null}"@
        + "},\"instructions\":\""@ + "Output only the Czech translation of the spoken audio."@
        + "\",\"output_modalities\":[\"text\"],\"type\":\"realtime\"},\"type\":\"session.update\"}"@);
}

proof fn lemma_session_text()
    ensures
        session_text() == "{\"audio\":{\"input\":"@ + audio_input_text() + "},\"instructions\":\""@
            + "Output only the Czech translation of the spoken audio."@
            + "\",\"output_modalities\":[\"text\"],\"type\":\"realtime\"}"@,
{
    let input = audio_input_text();
    let said = "Output only the Czech translation of the spoken audio."@;
    let audio = member_text("audio"@, object_text(seq![member_text("input"@, input)]));
    let instructions = member_text("instructions"@, quoted(said));
    let modes = member_text("output_modalities"@, array_text(seq![quoted("text"@)]));
    let kind = member_text("type"@, quoted("realtime"@));
    lemma_four(audio, instructions, modes, kind);
    lemma_session_start(input);
    lemma_session_middle(said);
    lemma_session_end();
    lemma_session_parts(audio, instructions, modes, kind, input, said);
}

proof fn lemma_session_start(input: Seq<char>)
    ensures
        seq!['{'] + member_text("audio"@, object_text(seq![member_text("input"@, input)]))
            == "{\"audio\":{\"input\":"@ + input + seq!['}'],
{
    reveal_strlit("audio");
    reveal_strlit("input");
    reveal_strlit("{\"audio\":{\"input\":");
    assert(seq!['{'] + member_text("audio"@, object_text(seq![member_text("input"@, input)]))
        =~= "{\"audio\":{\"input\":"@ + input + seq!['}']);
}

proof fn lemma_session_middle(said: Seq<char>)
    ensures
        seq!['}'] + seq![','] + member_text("instructions"@, quoted(said)) == "},\"instructions\":\""@
            + said + seq!['"'],
{
    reveal_strlit("instructions");
    reveal_strlit("},\"instructions\":\"");
    assert(seq!['}'] + seq![','] + member_text("instructions"@, quoted(said)) =~= "},\"instructions\":\""@
        + said + seq!['"']);
}

proof fn lemma_session_end()
    ensures
        seq!['"'] + seq![','] + member_text("output_modalities"@, array_text(seq![quoted("text"@)]))
            + seq![','] + member_text("type"@, quoted("realtime"@)) + seq!['}']
            == "\",\"output_modalities\":[\"text\"],\"type\":\"realtime\"}"@,
{
    reveal_strlit("output_modalities");
    reveal_strlit("text");
    reveal_strlit("type");
    reveal_strlit("realtime");
    reveal_strlit("\",\"output_modalities\":[\"text\"],\"type\":\"realtime\"}");
    assert(seq!['"'] + seq![','] + member_text(
        "output_modalities"@,
        array_text(seq![quoted("text"@)]),
    ) + seq![','] + member_text("type"@, quoted("realtime"@)) + seq!['}']
        =~= "\",\"output_modalities\":[\"text\"],\"type\":\"realtime\"}"@);
}

proof fn lemma_four(a: Seq<char>, b: Seq<char>, c: Seq<char>, d: Seq<char>)
    ensures
        object_text(seq![a, b, c, d]) == seq!['{'] + (a + seq![','] + b + seq![','] + c + seq![',']
            + d) + seq!['}'],
{
    reveal_with_fuel(comma_separated, 4);
    let members = seq![a, b, c, d];
    assert(members.drop_last() =~= seq![a, b, c]);
    assert(seq![a, b, c].drop_last() =~= seq![a, b]);
    assert(seq![a, b].drop_last() =~= seq![a]);
}

/// Puts the parts together: they meet in the brace after the audio and the quote after the
/// instructions.
proof fn lemma_session_parts(
    a: Seq<char>,
    b: Seq<char>,
    c: Seq<char>,
    d: Seq<char>,
    input: Seq<char>,
    said: Seq<char>,
)
    requires
        seq!['{'] + a == "{\"audio\":{\"input\":"@ + input + seq!['}'],
        seq!['}'] + seq![','] + b == "},\"instructions\":\""@ + said + seq!['"'],
        seq!['"'] + seq![','] + c + seq![','] + d + seq!['}']
            == "\",\"output_modalities\":[\"text\"],\"type\":\"realtime\"}"@,
    ensures
        seq!['{'] + (a + seq![','] + b + seq![','] + c + seq![','] + d) + seq!['}']
            == "{\"audio\":{\"input\":"@ + input + "},\"instructions\":\""@ + said
            + "\",\"output_modalities\":[\"text\"],\"type\":\"realtime\"}"@,
{
    let start = "{\"audio\":{\"input\":"@ + input;
    let middle = "},\"instructions\":\""@ + said;
    let end = "\",\"output_modalities\":[\"text\"],\"type\":\"realtime\"}"@;
    let comma = seq![','];
    let brace = seq!['}'];
    let quote = seq!['"'];
    let tail = comma + c + comma + d + brace;
    assert(seq!['{'] + (a + comma + b + comma + c + comma + d) + brace =~= (seq!['{'] + a) + (comma + b)
        + tail);
    assert((start + brace) + (comma + b) =~= start + (brace + comma + b));
    assert(quote + tail =~= quote + comma + c + comma + d + brace);
    assert((start + (middle + quote)) + tail =~= start + middle + (quote + tail));
    assert(start + middle + end =~= "{\"audio\":{\"input\":"@ + input + "},\"instructions\":\""@ + said + end);
}

proof fn lemma_audio_input_text()
    ensures
        audio_input_text() == "{\"format\":{\"rate\":24000,\"type\":\"audio/pcm\"},\"turn_detection\":null}"@,
{
    reveal_strlit("format");
    reveal_strlit("rate");
    reveal_strlit("type");
    reveal_strlit("audio/pcm");
    reveal_strlit("turn_detection");
    reveal_strlit("null");
    reveal_strlit("{\"format\":{\"rate\":24000,\"type\":\"audio/pcm\"},\"turn_detection\":null}");
    reveal_with_fuel(decimal, 5);
    assert(decimal(24000) =~= seq!['2', '4', '0', '0', '0']);
    let rate = member_text("rate"@, decimal(OPENAI_AUDIO_RATE as nat));
    let kind = member_text("type"@, quoted("audio/pcm"@));
    lemma_pair(rate, kind);
    lemma_pair(
        member_text("format"@, object_text(seq![rate, kind])),
        member_text("turn_detection"@, "null"@),
    );
    assert(audio_input_text() =~= "{\"format\":{\"rate\":24000,\"type\":\"audio/pcm\"},\"turn_detection\":null}"@);
}

} // verus!
