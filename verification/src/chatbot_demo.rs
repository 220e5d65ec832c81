//! Canned multi-turn chat scenarios for exercising the chatbot compliance
//! agent: customer support, healthcare and banking conversations that leak
//! PII, and one clean conversation.

use vstd::prelude::*;
use vstd::string::StrSliceExecFns;
use vstd::string::StringExecFns;
use vstd::string::StringSliceAdditionalSpecFns;

use crate::session::now_millis;
use crate::types::{ChatMessage, ChatSession, MessageModel, RiskLevel, push_message};

verus! {

/// Source of the canned chat scenarios.
pub struct ChatbotDemoData;

/// Relies on `uuid::Uuid::new_v4` for a fresh random identifier, rendered
/// as its canonical string; nothing is assumed of the value.
#[verifier::external_body]
fn fresh_uuid_string() -> String {
    uuid::Uuid::new_v4().to_string()
}

/// Builds one message of a scenario, freshly identified and timestamped.
fn demo_message(user_id: &str, session_id: &String, content: &str, is_user: bool) -> (r:
    ChatMessage)
    ensures
        r.deep_view().user_id == user_id@,
        r.deep_view().session_id == session_id@,
        r.deep_view().content == content.spec_bytes(),
        r.deep_view().is_user_message == is_user,
{
    ChatMessage {
        user_id: String::from_str(user_id),
        session_id: session_id.clone(),
        message_id: fresh_uuid_string(),
        timestamp: now_millis(),
        content: content.as_bytes_vec(),
        is_user_message: is_user,
    }
}

impl ChatbotDemoData {
    /// Builds the scenario source.
    pub fn new() -> (r: ChatbotDemoData)
    {
        ChatbotDemoData
    }

    /// The four scenarios, from a PII-leaking support chat to a clean one,
    /// each labelled with the risk its conversation is expected to carry.
    pub fn get_chat_scenarios(&self) -> (r: Vec<ChatSession>)
        ensures
            r@.len() == 4,
            r@[0].risk_level == RiskLevel::Medium,
            r@[1].risk_level == RiskLevel::Critical,
            r@[2].risk_level == RiskLevel::High,
            r@[3].risk_level == RiskLevel::Safe,
    {
        let mut scenarios: Vec<ChatSession> = Vec::new();
        scenarios.push(self.create_customer_support_scenario());
        scenarios.push(self.create_healthcare_scenario());
        scenarios.push(self.create_banking_scenario());
        scenarios.push(self.create_clean_scenario());
        scenarios
    }

    /// A support chat in which the user volunteers an email address and a
    /// phone number.
    fn create_customer_support_scenario(&self) -> (r: ChatSession)
        ensures
            r.deep_view().messages.len() == 3,
            r.deep_view().compliance_violations.len() == 0,
            r.risk_level == RiskLevel::Medium,
            r.deep_view().messages[2].content
                == "Sure, my email is john.doe@gmail.com and my phone is 555-123-4567".spec_bytes(),
    {
        let session_id = fresh_uuid_string();
        let mut messages: Vec<ChatMessage> = Vec::new();
        assert(messages.deep_view() =~= Seq::<MessageModel>::empty());
        push_message(
            &mut messages,
            demo_message("user_123", &session_id, "Hi, I need help with my account", true),
        );
        push_message(
            &mut messages,
            demo_message(
                "bot_001",
                &session_id,
                "Hello! I'd be happy to help. Can you provide your email address?",
                false,
            ),
        );
        push_message(
            &mut messages,
            demo_message(
                "user_123",
                &session_id,
                "Sure, my email is john.doe@gmail.com and my phone is 555-123-4567",
                true,
            ),
        );
        let r = ChatSession {
            session_id,
            user_id: String::from_str("user_123"),
            messages,
            compliance_violations: Vec::new(),
            risk_level: RiskLevel::Medium,
        };
        assert(r.deep_view().compliance_violations =~= Seq::empty());
        r
    }

    /// A healthcare chat in which the user volunteers a name, a date of
    /// birth and a social security number.
    fn create_healthcare_scenario(&self) -> (r: ChatSession)
        ensures
            r.deep_view().messages.len() == 3,
            r.deep_view().compliance_violations.len() == 0,
            r.risk_level == RiskLevel::Critical,
            r.deep_view().messages[2].content
                == "My name is Jane Smith, DOB 05/15/1985, SSN 123-45-6789".spec_bytes(),
    {
        let session_id = fresh_uuid_string();
        let mut messages: Vec<ChatMessage> = Vec::new();
        assert(messages.deep_view() =~= Seq::<MessageModel>::empty());
        push_message(
            &mut messages,
            demo_message("user_456", &session_id, "I need to schedule an appointment", true),
        );
        push_message(
            &mut messages,
            demo_message(
                "bot_002",
                &session_id,
                "I can help you schedule an appointment. What's your name and date of birth?",
                false,
            ),
        );
        push_message(
            &mut messages,
            demo_message(
                "user_456",
                &session_id,
                "My name is Jane Smith, DOB 05/15/1985, SSN 123-45-6789",
                true,
            ),
        );
        let r = ChatSession {
            session_id,
            user_id: String::from_str("user_456"),
            messages,
            compliance_violations: Vec::new(),
            risk_level: RiskLevel::Critical,
        };
        assert(r.deep_view().compliance_violations =~= Seq::empty());
        r
    }

    /// A banking chat in which the user volunteers a credit card number.
    fn create_banking_scenario(&self) -> (r: ChatSession)
        ensures
            r.deep_view().messages.len() == 3,
            r.deep_view().compliance_violations.len() == 0,
            r.risk_level == RiskLevel::High,
            r.deep_view().messages[2].content
                == "My card number is 4111-1111-1111-1111, exp 12/25".spec_bytes(),
    {
        let session_id = fresh_uuid_string();
        let mut messages: Vec<ChatMessage> = Vec::new();
        assert(messages.deep_view() =~= Seq::<MessageModel>::empty());
        push_message(
            &mut messages,
            demo_message("user_789", &session_id, "I need to update my payment method", true),
        );
        push_message(
            &mut messages,
            demo_message(
                "bot_003",
                &session_id,
                "I can help you update your payment method. What's your card number?",
                false,
            ),
        );
        push_message(
            &mut messages,
            demo_message(
                "user_789",
                &session_id,
                "My card number is 4111-1111-1111-1111, exp 12/25",
                true,
            ),
        );
        let r = ChatSession {
            session_id,
            user_id: String::from_str("user_789"),
            messages,
            compliance_violations: Vec::new(),
            risk_level: RiskLevel::High,
        };
        assert(r.deep_view().compliance_violations =~= Seq::empty());
        r
    }

    /// A conversation that leaks nothing.
    fn create_clean_scenario(&self) -> (r: ChatSession)
        ensures
            r.deep_view().messages.len() == 3,
            r.deep_view().compliance_violations.len() == 0,
            r.risk_level == RiskLevel::Safe,
            r.deep_view().messages[2].content == "I'm in San Francisco".spec_bytes(),
    {
        let session_id = fresh_uuid_string();
        let mut messages: Vec<ChatMessage> = Vec::new();
        assert(messages.deep_view() =~= Seq::<MessageModel>::empty());
        push_message(
            &mut messages,
            demo_message("user_999", &session_id, "What's the weather like today?", true),
        );
        push_message(
            &mut messages,
            demo_message(
                "bot_004",
                &session_id,
                "I can check the weather for you. What city are you in?",
                false,
            ),
        );
        push_message(
            &mut messages,
            demo_message("user_999", &session_id, "I'm in San Francisco", true),
        );
        let r = ChatSession {
            session_id,
            user_id: String::from_str("user_999"),
            messages,
            compliance_violations: Vec::new(),
            risk_level: RiskLevel::Safe,
        };
        assert(r.deep_view().compliance_violations =~= Seq::empty());
        r
    }
}

} // verus!
