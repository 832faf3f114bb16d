//! The instruction payload sent to the text-generation endpoint.
use vstd::prelude::*;
use vstd::string::*;
use crate::text::same_str;

verus! {

/// Instruction for reports written in Catalan.
pub const CATALAN_PROMPT: &'static str = r#"
# ROL DEL SISTEMA
Actua como a acompanyant espiritual pastoral catòlic. El teu to és serè, acollidor i profund.
Evita el llenguatge tècnic, el judici moralitzant i les tradicions alienes al cristianisme.
RESPON ÚNICAMENT EN CATALÀ.

# OBJECTIU
Oferir una lectura espiritual de l'experiència de l'usuari que aporti pau i sentit.

# ESTRUCTURA DE SORTIDA (HTML OBLIGATORI)
Genera NOMÉS el contingut HTML dins d'etiquetes <article>.
Estructura exacta:

<article>
    <section class="acogida">
        <h2>1. Acollida i Lectura Espiritual</h2>
        <p>[Valida la vivència de l'usuari amb empatia i profunditat]</p>
    </section>

    <section class="sentido">
        <h2>2. Sentit Espiritual</h2>
        <p>[Discerniment: no és càstig, és camí, purificació o misteri]</p>
    </section>

    <section class="orientacion">
        <h2>3. Orientació Pastoral</h2>
        <p>[Consells senzills: confiança, pregària, paciència]</p>
    </section>

    <section class="cierre-biblico">
        <h2>4. Paraula de Vida</h2>
        <p>[Breu frase d'esperança]</p>
        <blockquote class="bible-quote">
            "[Cita bíblica explícita en català]"
            <footer>— <cite>[Llibre Cap:Ver]</cite></footer>
        </blockquote>
    </section>
</article>
"#;

/// Instruction for reports written in Spanish, the default language.
pub const SPANISH_PROMPT: &'static str = r#"
# ROL DEL SISTEMA
Actúa como un acompañante espiritual pastoral católico. Tu tono es sereno, acogedor y profundo.
Evita el lenguaje técnico, el juicio moralizante y las tradiciones ajenas al cristianismo.
RESPONDE ÚNICAMENTE EN ESPAÑOL.

# OBJETIVO
Ofrecer una lectura espiritual de la experiencia del usuario que aporte paz y sentido.

# ESTRUCTURA DE SALIDA (HTML OBLIGATORIO)
Genera SOLO el contenido HTML dentro de etiquetas <article>.
Estructura exacta:

<article>
    <section class="acogida">
        <h2>1. Acogida y Lectura Espiritual</h2>
        <p>[Valida la vivencia del usuario con empatia y profundidad]</p>
    </section>

    <section class="sentido">
        <h2>2. Sentido Espiritual</h2>
        <p>[Discernimiento: no es castigo, es camino, purificación o misterio]</p>
    </section>

    <section class="orientacion">
        <h2>3. Orientación Pastoral</h2>
        <p>[Consejos sencillos: confianza, oración, paciencia]</p>
    </section>

    <section class="cierre-biblico">
        <h2>4. Palabra de Vida</h2>
        <p>[Breve frase de esperanza]</p>
        <blockquote class="bible-quote">
            "[Cita bíblica explícita]"
            <footer>— <cite>[Libro Cap:Ver]</cite></footer>
        </blockquote>
    </section>
</article>
"#;

/// Model asked for when the configuration names none.
pub const DEFAULT_MODEL: &'static str = "gpt-4o-mini";

/// The instruction for a language code: Catalan for `"ca"`, Spanish for
/// every other code.
pub open spec fn system_prompt(lang: Seq<char>) -> Seq<char> {
    if lang == "ca"@ {
        CATALAN_PROMPT@
    } else {
        SPANISH_PROMPT@
    }
}

/// The user content: a labelled experience block, a blank line, then a
/// labelled context block.
pub open spec fn user_message_text(experience: Seq<char>, context: Seq<char>) -> Seq<char> {
    "=== EXPERIENCIA ===\n"@ + experience + "\n\n=== CONTEXTO ===\n"@ + context
}

/// Selects the instruction for a language code.
pub fn get_system_prompt(lang: &str) -> (r: String)
    ensures
        r@ == system_prompt(lang@),
{
    if same_str(lang, "ca") {
        CATALAN_PROMPT.to_owned()
    } else {
        SPANISH_PROMPT.to_owned()
    }
}

/// Builds the user content from the experience and context texts.
pub fn user_message(experience: &str, context: &str) -> (r: String)
    ensures
        r@ == user_message_text(experience@, context@),
{
    let mut r = String::from_str("=== EXPERIENCIA ===\n");
    r.append(experience);
    r.append("\n\n=== CONTEXTO ===\n");
    r.append(context);
    r
}

/// One message of the instruction payload.
pub struct InputMessage {
    pub role: String,
    pub content: String,
}

/// The generation request: a model, exactly two messages (system
/// instruction, then user content) and no storage of the exchange by the
/// provider. The sampling temperature is fixed where the request is encoded.
pub struct ResponsesRequest {
    pub model: String,
    pub input: Vec<InputMessage>,
    pub store: bool,
}

/// Whether `m` is a message with the given role and content.
pub open spec fn is_message(m: InputMessage, role: Seq<char>, content: Seq<char>) -> bool {
    m.role@ == role && m.content@ == content
}

/// Builds the request for a model, a language code and the two texts.
pub fn compose_request(model: &str, lang: &str, experience: &str, context: &str) -> (r:
    ResponsesRequest)
    ensures
        r.model@ == model@,
        r.input@.len() == 2,
        is_message(r.input@[0], "system"@, system_prompt(lang@)),
        is_message(r.input@[1], "user"@, user_message_text(experience@, context@)),
        !r.store,
{
    let system = InputMessage { role: "system".to_owned(), content: get_system_prompt(lang) };
    let user = InputMessage { role: "user".to_owned(), content: user_message(experience, context) };
    ResponsesRequest { model: model.to_owned(), input: vec![system, user], store: false }
}

} // verus!
