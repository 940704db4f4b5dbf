//! Text of the activation email.
use vstd::prelude::*;

verus! {

/// Subject line of the activation email.
pub const ACTIVATION_SUBJECT: &'static str = "LYnLab 계정 인증 메일입니다.";

/// Text of the activation email before the token.
pub const ACTIVATION_HEAD: &'static str = "
LYnLab 계정 등록을 위한 인증 이메일입니다.

아래의 링크를 눌러 인증 절차를 진행해주세요.
만약 링크가 눌러지지 않는다면, 브라우저의 주소창에 복사하여 진행해주세요.

https://accounts.lynlab.co.kr/activate/";

/// Text of the activation email after the token.
pub const ACTIVATION_TAIL: &'static str = "

만약 본인이 가입한 것이 아니라면 이 메일을 무시하셔도 됩니다.
    ";

/// The activation email's body for `token`: the activation link ends in it.
pub open spec fn activation_body(token: Seq<char>) -> Seq<char> {
    ACTIVATION_HEAD@ + token + ACTIVATION_TAIL@
}

/// Body of the email that carries `activation_token` to the new account's
/// address.
pub fn email_body_activation(activation_token: &str) -> (r: String)
    ensures
        r@ == activation_body(activation_token@),
{
    let mut body = String::from_str(ACTIVATION_HEAD);
    body.append(activation_token);
    body.append(ACTIVATION_TAIL);
    body
}

} // verus!
