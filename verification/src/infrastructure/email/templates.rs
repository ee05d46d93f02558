use vstd::prelude::*;

use crate::text::{all_digits, decimal, decimal_string, digits_value, lemma_decimal_digits, lemma_decimal_reads_back};

verus! {

/// The opening of the verification page: a line break, indentation and the document type.
pub const PAGE_OPEN: &'static str = r#"
            <!DOCTYPE html>"#;

/// The verification page up to the brand name.
pub const PAGE_BEFORE_BRAND: &'static str = r#"
            <html>
            <body style="margin: 0; padding: 0; font-family: 'Inter', Helvetica, Arial, sans-serif; background-color: #ffffff;">
                <div style="max-width: 400px; margin: 0 auto; padding: 40px 20px; text-align: center;">
                    <div style="color: #4F39F6; font-weight: 700; font-size: 24px; margin-bottom: 30px;">"#;

/// The brand name.
pub const BRAND: &'static str = r#"CacheFlow"#;

/// The verification page between the brand name and the heading.
pub const PAGE_BEFORE_HEADING: &'static str = r#"</div>
                    <h1 style="font-size: 24px; color: #1a1a1a; margin-bottom: 8px;">"#;

/// The heading of the verification page.
pub const HEADING: &'static str = r#"Подтвердите почту"#;

/// The verification page between the heading and the user's name.
pub const PAGE_BEFORE_NAME: &'static str = r#"</h1>
                    <p style="color: #666666; font-size: 15px; margin-bottom: 32px;">Привет, "#;

/// The verification page between the name and the code.
pub const PAGE_BEFORE_CODE: &'static str = r#"! Ваш код подтверждения:</p>

                    <div style="background: #f4f4f9; border-radius: 12px; padding: 20px; border: 2px solid #e2e2e7; margin-bottom: 32px;">
                        <span style="font-size: 32px; font-weight: 700; color: #4F39F6; letter-spacing: 8px;">"#;

/// The verification page between the code and the validity in minutes.
pub const PAGE_BEFORE_MINUTES: &'static str = r#"</span>
                    </div>

                    <p style="color: #999999; font-size: 12px;">Код действителен в течение "#;

/// The verification page after the validity in minutes, up to its closing tag.
pub const PAGE_BEFORE_CLOSE: &'static str = r#" минут. Если вы не запрашивали его, просто проигнорируйте это письмо.</p>
                </div>
            </body>
            "#;

/// The closing tag of the verification page, a line break and indentation.
pub const PAGE_CLOSE: &'static str = r#"</html>
            "#;

/// The e-mail pages the service sends.
pub struct EmailTemplates;

impl EmailTemplates {
    /// The verification page: greets `name`, shows `code`, and says it is
    /// valid for `expire_min` minutes.
    pub open spec fn verification_html(name: Seq<char>, code: Seq<char>, expire_min: u16) -> Seq<char> {
        PAGE_OPEN@ + PAGE_BEFORE_BRAND@ + BRAND@ + PAGE_BEFORE_HEADING@ + HEADING@ + PAGE_BEFORE_NAME@
            + name + PAGE_BEFORE_CODE@ + code + PAGE_BEFORE_MINUTES@
            + decimal(expire_min as nat) + PAGE_BEFORE_CLOSE@ + PAGE_CLOSE@
    }

    /// The HTML body of the verification e-mail.
    pub fn get_verification_html(name: &str, code: &str, expire_min: u16) -> (html: String)
        ensures
            html@ == EmailTemplates::verification_html(name@, code@, expire_min),
    {
        let mut html = String::from_str(PAGE_OPEN);
        html.append(PAGE_BEFORE_BRAND);
        html.append(BRAND);
        html.append(PAGE_BEFORE_HEADING);
        html.append(HEADING);
        html.append(PAGE_BEFORE_NAME);
        html.append(name);
        html.append(PAGE_BEFORE_CODE);
        html.append(code);
        html.append(PAGE_BEFORE_MINUTES);
        let minutes = decimal_string(expire_min as u64);
        html.append(minutes.as_str());
        html.append(PAGE_BEFORE_CLOSE);
        html.append(PAGE_CLOSE);
        html
    }
}

/// The verification page is a whole HTML document whatever it is filled
/// with: it opens with a line break, indentation and `<!DOCTYPE html>`; it
/// carries the brand name and the heading; and it closes with `</html>`, a
/// line break and indentation.
pub proof fn lemma_verification_page_shape(name: Seq<char>, code: Seq<char>, expire_min: u16)
    ensures
        ({
            let p = EmailTemplates::verification_html(name, code, expire_min);
            &&& p.take(13) == "\n            "@
            &&& p.subrange(13, 28) == "<!DOCTYPE html>"@
            &&& exists|i: int| 0 <= i && i + 9 <= p.len() && #[trigger] p.subrange(i, i + 9) == "CacheFlow"@
            &&& exists|i: int| 0 <= i && i + 17 <= p.len() && #[trigger] p.subrange(i, i + 17) == "Подтвердите почту"@
            &&& p.len() >= 20
            &&& p.subrange(p.len() - 20, p.len() - 13) == "</html>"@
            &&& p.skip(p.len() - 13) == "\n            "@
        }),
{
    reveal_strlit("\n            <!DOCTYPE html>");
    reveal_strlit("CacheFlow");
    reveal_strlit("Подтвердите почту");
    reveal_strlit("</html>\n            ");
    reveal_strlit("\n            ");
    reveal_strlit("<!DOCTYPE html>");
    reveal_strlit("</html>");
    let p = EmailTemplates::verification_html(name, code, expire_min);
    let a = PAGE_OPEN@ + PAGE_BEFORE_BRAND@;
    let rest = PAGE_BEFORE_HEADING@ + HEADING@ + PAGE_BEFORE_NAME@ + name + PAGE_BEFORE_CODE@ + code
        + PAGE_BEFORE_MINUTES@ + decimal(expire_min as nat) + PAGE_BEFORE_CLOSE@ + PAGE_CLOSE@;
    assert(p =~= a + BRAND@ + rest);
    assert(p.take(13) =~= "\n            "@);
    assert(p.subrange(13, 28) =~= "<!DOCTYPE html>"@);
    let i = a.len() as int;
    assert(p.subrange(i, i + 9) =~= "CacheFlow"@);
    let before_heading = a + BRAND@ + PAGE_BEFORE_HEADING@;
    let after_heading = PAGE_BEFORE_NAME@ + name + PAGE_BEFORE_CODE@ + code
        + PAGE_BEFORE_MINUTES@ + decimal(expire_min as nat) + PAGE_BEFORE_CLOSE@ + PAGE_CLOSE@;
    assert(p =~= before_heading + HEADING@ + after_heading);
    let j = before_heading.len() as int;
    assert(p.subrange(j, j + 17) =~= "Подтвердите почту"@);
    let front = a + BRAND@ + PAGE_BEFORE_HEADING@ + HEADING@ + PAGE_BEFORE_NAME@ + name + PAGE_BEFORE_CODE@ + code
        + PAGE_BEFORE_MINUTES@ + decimal(expire_min as nat) + PAGE_BEFORE_CLOSE@;
    assert(p =~= front + PAGE_CLOSE@);
    assert(p.subrange(p.len() - 20, p.len() - 13) =~= "</html>"@);
    assert(p.skip(p.len() - 13) =~= "\n            "@);
}

/// The page greets `name` and shows `code` where the template puts them, and
/// states the code's validity in minutes as `expire_min` itself: right after
/// the code and the words before the minutes comes a run of decimal digits
/// that reads back as `expire_min`, and the page then ends with the words
/// after the minutes and the closing tag.
pub proof fn lemma_verification_page_shows_minutes(name: Seq<char>, code: Seq<char>, expire_min: u16)
    ensures
        ({
            let p = EmailTemplates::verification_html(name, code, expire_min);
            let tail = PAGE_BEFORE_CLOSE@ + PAGE_CLOSE@;
            exists|shown: Seq<char>| {
                let k = p.len() - tail.len() - shown.len();
                &&& #[trigger] all_digits(shown)
                &&& 1 <= shown.len()
                &&& digits_value(shown) == expire_min as nat
                &&& k >= PAGE_BEFORE_MINUTES@.len()
                &&& p.subrange(k - PAGE_BEFORE_MINUTES@.len(), k) == PAGE_BEFORE_MINUTES@
                &&& p.subrange(k, p.len() - tail.len()) == shown
                &&& p.skip(p.len() - tail.len()) == tail
                &&& k >= PAGE_BEFORE_MINUTES@.len() + code.len()
                &&& p.subrange(k - PAGE_BEFORE_MINUTES@.len() - code.len(), k - PAGE_BEFORE_MINUTES@.len()) == code
            }
        }),
        ({
            let p = EmailTemplates::verification_html(name, code, expire_min);
            let greeting = PAGE_OPEN@ + PAGE_BEFORE_BRAND@ + BRAND@ + PAGE_BEFORE_HEADING@ + HEADING@ + PAGE_BEFORE_NAME@;
            let g = greeting.len() as int;
            let n = name.len() as int;
            &&& p.len() >= g + n + PAGE_BEFORE_CODE@.len()
            &&& p.take(g) == greeting
            &&& p.subrange(g, g + n) == name
            &&& p.subrange(g + n, g + n + PAGE_BEFORE_CODE@.len()) == PAGE_BEFORE_CODE@
        }),
{
    let p = EmailTemplates::verification_html(name, code, expire_min);
    let tail = PAGE_BEFORE_CLOSE@ + PAGE_CLOSE@;
    let shown = decimal(expire_min as nat);
    lemma_decimal_digits(expire_min as nat);
    lemma_decimal_reads_back(expire_min as nat);
    let head = PAGE_OPEN@ + PAGE_BEFORE_BRAND@ + BRAND@ + PAGE_BEFORE_HEADING@ + HEADING@ + PAGE_BEFORE_NAME@
        + name + PAGE_BEFORE_CODE@ + code;
    assert(p =~= head + PAGE_BEFORE_MINUTES@ + shown + tail);
    let k = p.len() - tail.len() - shown.len();
    assert(k == head.len() + PAGE_BEFORE_MINUTES@.len());
    assert(p.subrange(k - PAGE_BEFORE_MINUTES@.len(), k) =~= PAGE_BEFORE_MINUTES@);
    assert(p.subrange(k, p.len() - tail.len()) =~= shown);
    assert(p.skip(p.len() - tail.len()) =~= tail);
    assert(p.subrange(k - PAGE_BEFORE_MINUTES@.len() - code.len(), k - PAGE_BEFORE_MINUTES@.len()) =~= code);
    let greeting = PAGE_OPEN@ + PAGE_BEFORE_BRAND@ + BRAND@ + PAGE_BEFORE_HEADING@ + HEADING@ + PAGE_BEFORE_NAME@;
    assert(p =~= greeting + name + PAGE_BEFORE_CODE@ + (code + PAGE_BEFORE_MINUTES@ + shown + tail));
    let g = greeting.len() as int;
    let n = name.len() as int;
    assert(p.take(g) =~= greeting);
    assert(p.subrange(g, g + n) =~= name);
    assert(p.subrange(g + n, g + n + PAGE_BEFORE_CODE@.len()) =~= PAGE_BEFORE_CODE@);
}

} // verus!
