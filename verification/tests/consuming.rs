use mangalib_parser::rabbitmq_consumer::{
    delivery_disposition, parse_delivery_data, AckAction, DeliveryOutcome,
    ParseDeliveryErrorType, EXCHANGE_NAME, QUEUE_NAME,
};

#[test]
fn a_utf8_body_decodes_to_its_text() {
    let body = "{\"slug\":\"test-manga\"}".as_bytes();
    assert_eq!(parse_delivery_data(body).unwrap(), "{\"slug\":\"test-manga\"}");
}

#[test]
fn a_multibyte_utf8_body_decodes_unchanged() {
    let body = "глава №4".as_bytes();
    assert_eq!(parse_delivery_data(body).unwrap(), "глава №4");
}

#[test]
fn a_non_utf8_body_is_a_decode_failure() {
    let body: Vec<u8> = vec![0xff, 0xfe, 0x41];
    assert!(matches!(
        parse_delivery_data(&body),
        Err(ParseDeliveryErrorType::ParseFromUtf8Error)
    ));
}

#[test]
fn a_poison_message_is_nacked_without_requeue() {
    assert_eq!(
        delivery_disposition(&DeliveryOutcome::DecodeFailed),
        AckAction::Nack { requeue: false }
    );
}

#[test]
fn a_job_that_failed_scraping_is_nacked_without_requeue() {
    assert_eq!(
        delivery_disposition(&DeliveryOutcome::Job {
            scrape_succeeded: false,
            publish_succeeded: true,
        }),
        AckAction::Nack { requeue: false }
    );
}

#[test]
fn a_scraped_job_is_acked_even_when_the_callback_failed() {
    assert_eq!(
        delivery_disposition(&DeliveryOutcome::Job {
            scrape_succeeded: true,
            publish_succeeded: false,
        }),
        AckAction::Ack
    );
}

#[test]
fn a_fully_successful_job_is_acked() {
    assert_eq!(
        delivery_disposition(&DeliveryOutcome::Job {
            scrape_succeeded: true,
            publish_succeeded: true,
        }),
        AckAction::Ack
    );
}

#[test]
fn the_broker_names_are_fixed() {
    assert_eq!(QUEUE_NAME, "manga_urls_queue");
    assert_eq!(EXCHANGE_NAME, "manga_urls_exchange");
}
