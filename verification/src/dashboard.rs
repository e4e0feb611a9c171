//! The dashboard's routing of the two compared instances and the producer, and which scraped
//! metrics are counters (summed over replicas) rather than gauges (averaged).
use vstd::prelude::*;
use vstd::string::StringSliceAdditionalSpecFns;
use crate::text::str_eq;

verus! {

/// Where the two compared flowgate instances, "a" and "b", and the
/// producer, "producer", keep their configuration and expose their metrics.
pub struct InstanceEndpoints {
    pub kv_bucket_a: String,
    pub kv_bucket_b: String,
    pub kv_bucket_producer: String,
    pub flowgate_a_metrics: String,
    pub flowgate_b_metrics: String,
    pub producer_metrics: String,
}

/// The instances the dashboard knows.
pub open spec fn known_instance(instance: Seq<char>) -> bool {
    instance == "a"@ || instance == "b"@ || instance == "producer"@
}

impl InstanceEndpoints {
    /// The KV bucket of an instance; `None` for an unknown instance.
    pub fn bucket_name(&self, instance: &str) -> (r: Option<String>)
        ensures
            instance@ == "a"@ ==> (r matches Some(b) && b@ == self.kv_bucket_a@),
            instance@ == "b"@ ==> (r matches Some(b) && b@ == self.kv_bucket_b@),
            instance@ == "producer"@ ==> (r matches Some(b) && b@ == self.kv_bucket_producer@),
            !known_instance(instance@) ==> r is None,
    {
        proof {
            reveal_strlit("a");
            reveal_strlit("b");
            reveal_strlit("producer");
            assert("a"@ != "b"@) by {
                assert("a"@[0] != "b"@[0]);
            }
            assert("a"@.len() != "producer"@.len());
            assert("b"@.len() != "producer"@.len());
        }
        if str_eq(instance, "a") {
            Some(self.kv_bucket_a.clone())
        } else if str_eq(instance, "b") {
            Some(self.kv_bucket_b.clone())
        } else if str_eq(instance, "producer") {
            Some(self.kv_bucket_producer.clone())
        } else {
            None
        }
    }

    /// The metrics URL of an instance: its base URL followed by "/metrics";
    /// `None` for an unknown instance.
    pub fn metrics_url(&self, instance: &str) -> (r: Option<String>)
        ensures
            instance@ == "a"@ ==> (r matches Some(u) && u@ == self.flowgate_a_metrics@ + "/metrics"@),
            instance@ == "b"@ ==> (r matches Some(u) && u@ == self.flowgate_b_metrics@ + "/metrics"@),
            instance@ == "producer"@ ==> (r matches Some(u) && u@ == self.producer_metrics@ + "/metrics"@),
            !known_instance(instance@) ==> r is None,
    {
        proof {
            reveal_strlit("a");
            reveal_strlit("b");
            reveal_strlit("producer");
            assert("a"@ != "b"@) by {
                assert("a"@[0] != "b"@[0]);
            }
            assert("a"@.len() != "producer"@.len());
            assert("b"@.len() != "producer"@.len());
        }
        if str_eq(instance, "a") {
            let mut u = self.flowgate_a_metrics.clone();
            u.append("/metrics");
            Some(u)
        } else if str_eq(instance, "b") {
            let mut u = self.flowgate_b_metrics.clone();
            u.append("/metrics");
            Some(u)
        } else if str_eq(instance, "producer") {
            let mut u = self.producer_metrics.clone();
            u.append("/metrics");
            Some(u)
        } else {
            None
        }
    }
}

/// The metrics that count events; the others are gauges.
pub open spec fn counter_metric(name: Seq<char>) -> bool {
    ||| name == "flowgate_messages_received_total"@
    ||| name == "flowgate_messages_emitted_total"@
    ||| name == "flowgate_messages_rejected_total"@
    ||| name == "flowgate_buffer_evicted_total"@
    ||| name == "flowgate_drain_skipped_quality_total"@
    ||| name == "flowgate_drain_skipped_backpressure_total"@
    ||| name == "producer_messages_published_total"@
    ||| name == "producer_publish_errors_total"@
    ||| name == "producer_batches_sent_total"@
}

/// Every metric that the service or the producer registers as a counter
/// counts as one (it is added up over replicas), and every registered gauge
/// does not (it is averaged).
pub proof fn lemma_registered_kinds()
    ensures
        counter_metric("flowgate_messages_received_total"@),
        counter_metric("flowgate_messages_emitted_total"@),
        counter_metric("flowgate_messages_rejected_total"@),
        !counter_metric("flowgate_current_threshold"@),
        !counter_metric("flowgate_target_rate"@),
        !counter_metric("flowgate_actual_rate"@),
        !counter_metric("flowgate_pid_error"@),
        !counter_metric("flowgate_pid_p_term"@),
        !counter_metric("flowgate_pid_i_term"@),
        !counter_metric("flowgate_pid_d_term"@),
        !counter_metric("flowgate_controller_state"@),
        !counter_metric("flowgate_warmup_samples_collected"@),
        !counter_metric("flowgate_buffer_size"@),
        counter_metric("flowgate_buffer_evicted_total"@),
        !counter_metric("flowgate_ingestion_rate"@),
        counter_metric("flowgate_drain_skipped_quality_total"@),
        counter_metric("flowgate_drain_skipped_backpressure_total"@),
        !counter_metric("flowgate_publish_latency_ms"@),
        !counter_metric("flowgate_avg_emitted_score"@),
        !counter_metric("flowgate_avg_latency_ms"@),
        counter_metric("producer_messages_published_total"@),
        counter_metric("producer_publish_errors_total"@),
        counter_metric("producer_batches_sent_total"@),
        !counter_metric("producer_active_clients"@),
        !counter_metric("producer_backpressure"@),
{
    assert("flowgate_current_threshold"@ != "flowgate_messages_received_total"@) by {
        reveal_strlit("flowgate_current_threshold");
        reveal_strlit("flowgate_messages_received_total");
        assert("flowgate_current_threshold"@.len() == 26 && "flowgate_messages_received_total"@.len() == 32);
    }
    assert("flowgate_current_threshold"@ != "flowgate_messages_emitted_total"@) by {
        reveal_strlit("flowgate_current_threshold");
        reveal_strlit("flowgate_messages_emitted_total");
        assert("flowgate_current_threshold"@.len() == 26 && "flowgate_messages_emitted_total"@.len() == 31);
    }
    assert("flowgate_current_threshold"@ != "flowgate_messages_rejected_total"@) by {
        reveal_strlit("flowgate_current_threshold");
        reveal_strlit("flowgate_messages_rejected_total");
        assert("flowgate_current_threshold"@.len() == 26 && "flowgate_messages_rejected_total"@.len() == 32);
    }
    assert("flowgate_current_threshold"@ != "flowgate_buffer_evicted_total"@) by {
        reveal_strlit("flowgate_current_threshold");
        reveal_strlit("flowgate_buffer_evicted_total");
        assert("flowgate_current_threshold"@.len() == 26 && "flowgate_buffer_evicted_total"@.len() == 29);
    }
    assert("flowgate_current_threshold"@ != "flowgate_drain_skipped_quality_total"@) by {
        reveal_strlit("flowgate_current_threshold");
        reveal_strlit("flowgate_drain_skipped_quality_total");
        assert("flowgate_current_threshold"@.len() == 26 && "flowgate_drain_skipped_quality_total"@.len() == 36);
    }
    assert("flowgate_current_threshold"@ != "flowgate_drain_skipped_backpressure_total"@) by {
        reveal_strlit("flowgate_current_threshold");
        reveal_strlit("flowgate_drain_skipped_backpressure_total");
        assert("flowgate_current_threshold"@.len() == 26 && "flowgate_drain_skipped_backpressure_total"@.len() == 41);
    }
    assert("flowgate_current_threshold"@ != "producer_messages_published_total"@) by {
        reveal_strlit("flowgate_current_threshold");
        reveal_strlit("producer_messages_published_total");
        assert("flowgate_current_threshold"@.len() == 26 && "producer_messages_published_total"@.len() == 33);
    }
    assert("flowgate_current_threshold"@ != "producer_publish_errors_total"@) by {
        reveal_strlit("flowgate_current_threshold");
        reveal_strlit("producer_publish_errors_total");
        assert("flowgate_current_threshold"@.len() == 26 && "producer_publish_errors_total"@.len() == 29);
    }
    assert("flowgate_current_threshold"@ != "producer_batches_sent_total"@) by {
        reveal_strlit("flowgate_current_threshold");
        reveal_strlit("producer_batches_sent_total");
        assert("flowgate_current_threshold"@.len() == 26 && "producer_batches_sent_total"@.len() == 27);
    }
    assert("flowgate_target_rate"@ != "flowgate_messages_received_total"@) by {
        reveal_strlit("flowgate_target_rate");
        reveal_strlit("flowgate_messages_received_total");
        assert("flowgate_target_rate"@.len() == 20 && "flowgate_messages_received_total"@.len() == 32);
    }
    assert("flowgate_target_rate"@ != "flowgate_messages_emitted_total"@) by {
        reveal_strlit("flowgate_target_rate");
        reveal_strlit("flowgate_messages_emitted_total");
        assert("flowgate_target_rate"@.len() == 20 && "flowgate_messages_emitted_total"@.len() == 31);
    }
    assert("flowgate_target_rate"@ != "flowgate_messages_rejected_total"@) by {
        reveal_strlit("flowgate_target_rate");
        reveal_strlit("flowgate_messages_rejected_total");
        assert("flowgate_target_rate"@.len() == 20 && "flowgate_messages_rejected_total"@.len() == 32);
    }
    assert("flowgate_target_rate"@ != "flowgate_buffer_evicted_total"@) by {
        reveal_strlit("flowgate_target_rate");
        reveal_strlit("flowgate_buffer_evicted_total");
        assert("flowgate_target_rate"@.len() == 20 && "flowgate_buffer_evicted_total"@.len() == 29);
    }
    assert("flowgate_target_rate"@ != "flowgate_drain_skipped_quality_total"@) by {
        reveal_strlit("flowgate_target_rate");
        reveal_strlit("flowgate_drain_skipped_quality_total");
        assert("flowgate_target_rate"@.len() == 20 && "flowgate_drain_skipped_quality_total"@.len() == 36);
    }
    assert("flowgate_target_rate"@ != "flowgate_drain_skipped_backpressure_total"@) by {
        reveal_strlit("flowgate_target_rate");
        reveal_strlit("flowgate_drain_skipped_backpressure_total");
        assert("flowgate_target_rate"@.len() == 20 && "flowgate_drain_skipped_backpressure_total"@.len() == 41);
    }
    assert("flowgate_target_rate"@ != "producer_messages_published_total"@) by {
        reveal_strlit("flowgate_target_rate");
        reveal_strlit("producer_messages_published_total");
        assert("flowgate_target_rate"@.len() == 20 && "producer_messages_published_total"@.len() == 33);
    }
    assert("flowgate_target_rate"@ != "producer_publish_errors_total"@) by {
        reveal_strlit("flowgate_target_rate");
        reveal_strlit("producer_publish_errors_total");
        assert("flowgate_target_rate"@.len() == 20 && "producer_publish_errors_total"@.len() == 29);
    }
    assert("flowgate_target_rate"@ != "producer_batches_sent_total"@) by {
        reveal_strlit("flowgate_target_rate");
        reveal_strlit("producer_batches_sent_total");
        assert("flowgate_target_rate"@.len() == 20 && "producer_batches_sent_total"@.len() == 27);
    }
    assert("flowgate_actual_rate"@ != "flowgate_messages_received_total"@) by {
        reveal_strlit("flowgate_actual_rate");
        reveal_strlit("flowgate_messages_received_total");
        assert("flowgate_actual_rate"@.len() == 20 && "flowgate_messages_received_total"@.len() == 32);
    }
    assert("flowgate_actual_rate"@ != "flowgate_messages_emitted_total"@) by {
        reveal_strlit("flowgate_actual_rate");
        reveal_strlit("flowgate_messages_emitted_total");
        assert("flowgate_actual_rate"@.len() == 20 && "flowgate_messages_emitted_total"@.len() == 31);
    }
    assert("flowgate_actual_rate"@ != "flowgate_messages_rejected_total"@) by {
        reveal_strlit("flowgate_actual_rate");
        reveal_strlit("flowgate_messages_rejected_total");
        assert("flowgate_actual_rate"@.len() == 20 && "flowgate_messages_rejected_total"@.len() == 32);
    }
    assert("flowgate_actual_rate"@ != "flowgate_buffer_evicted_total"@) by {
        reveal_strlit("flowgate_actual_rate");
        reveal_strlit("flowgate_buffer_evicted_total");
        assert("flowgate_actual_rate"@.len() == 20 && "flowgate_buffer_evicted_total"@.len() == 29);
    }
    assert("flowgate_actual_rate"@ != "flowgate_drain_skipped_quality_total"@) by {
        reveal_strlit("flowgate_actual_rate");
        reveal_strlit("flowgate_drain_skipped_quality_total");
        assert("flowgate_actual_rate"@.len() == 20 && "flowgate_drain_skipped_quality_total"@.len() == 36);
    }
    assert("flowgate_actual_rate"@ != "flowgate_drain_skipped_backpressure_total"@) by {
        reveal_strlit("flowgate_actual_rate");
        reveal_strlit("flowgate_drain_skipped_backpressure_total");
        assert("flowgate_actual_rate"@.len() == 20 && "flowgate_drain_skipped_backpressure_total"@.len() == 41);
    }
    assert("flowgate_actual_rate"@ != "producer_messages_published_total"@) by {
        reveal_strlit("flowgate_actual_rate");
        reveal_strlit("producer_messages_published_total");
        assert("flowgate_actual_rate"@.len() == 20 && "producer_messages_published_total"@.len() == 33);
    }
    assert("flowgate_actual_rate"@ != "producer_publish_errors_total"@) by {
        reveal_strlit("flowgate_actual_rate");
        reveal_strlit("producer_publish_errors_total");
        assert("flowgate_actual_rate"@.len() == 20 && "producer_publish_errors_total"@.len() == 29);
    }
    assert("flowgate_actual_rate"@ != "producer_batches_sent_total"@) by {
        reveal_strlit("flowgate_actual_rate");
        reveal_strlit("producer_batches_sent_total");
        assert("flowgate_actual_rate"@.len() == 20 && "producer_batches_sent_total"@.len() == 27);
    }
    assert("flowgate_pid_error"@ != "flowgate_messages_received_total"@) by {
        reveal_strlit("flowgate_pid_error");
        reveal_strlit("flowgate_messages_received_total");
        assert("flowgate_pid_error"@.len() == 18 && "flowgate_messages_received_total"@.len() == 32);
    }
    assert("flowgate_pid_error"@ != "flowgate_messages_emitted_total"@) by {
        reveal_strlit("flowgate_pid_error");
        reveal_strlit("flowgate_messages_emitted_total");
        assert("flowgate_pid_error"@.len() == 18 && "flowgate_messages_emitted_total"@.len() == 31);
    }
    assert("flowgate_pid_error"@ != "flowgate_messages_rejected_total"@) by {
        reveal_strlit("flowgate_pid_error");
        reveal_strlit("flowgate_messages_rejected_total");
        assert("flowgate_pid_error"@.len() == 18 && "flowgate_messages_rejected_total"@.len() == 32);
    }
    assert("flowgate_pid_error"@ != "flowgate_buffer_evicted_total"@) by {
        reveal_strlit("flowgate_pid_error");
        reveal_strlit("flowgate_buffer_evicted_total");
        assert("flowgate_pid_error"@.len() == 18 && "flowgate_buffer_evicted_total"@.len() == 29);
    }
    assert("flowgate_pid_error"@ != "flowgate_drain_skipped_quality_total"@) by {
        reveal_strlit("flowgate_pid_error");
        reveal_strlit("flowgate_drain_skipped_quality_total");
        assert("flowgate_pid_error"@.len() == 18 && "flowgate_drain_skipped_quality_total"@.len() == 36);
    }
    assert("flowgate_pid_error"@ != "flowgate_drain_skipped_backpressure_total"@) by {
        reveal_strlit("flowgate_pid_error");
        reveal_strlit("flowgate_drain_skipped_backpressure_total");
        assert("flowgate_pid_error"@.len() == 18 && "flowgate_drain_skipped_backpressure_total"@.len() == 41);
    }
    assert("flowgate_pid_error"@ != "producer_messages_published_total"@) by {
        reveal_strlit("flowgate_pid_error");
        reveal_strlit("producer_messages_published_total");
        assert("flowgate_pid_error"@.len() == 18 && "producer_messages_published_total"@.len() == 33);
    }
    assert("flowgate_pid_error"@ != "producer_publish_errors_total"@) by {
        reveal_strlit("flowgate_pid_error");
        reveal_strlit("producer_publish_errors_total");
        assert("flowgate_pid_error"@.len() == 18 && "producer_publish_errors_total"@.len() == 29);
    }
    assert("flowgate_pid_error"@ != "producer_batches_sent_total"@) by {
        reveal_strlit("flowgate_pid_error");
        reveal_strlit("producer_batches_sent_total");
        assert("flowgate_pid_error"@.len() == 18 && "producer_batches_sent_total"@.len() == 27);
    }
    assert("flowgate_pid_p_term"@ != "flowgate_messages_received_total"@) by {
        reveal_strlit("flowgate_pid_p_term");
        reveal_strlit("flowgate_messages_received_total");
        assert("flowgate_pid_p_term"@.len() == 19 && "flowgate_messages_received_total"@.len() == 32);
    }
    assert("flowgate_pid_p_term"@ != "flowgate_messages_emitted_total"@) by {
        reveal_strlit("flowgate_pid_p_term");
        reveal_strlit("flowgate_messages_emitted_total");
        assert("flowgate_pid_p_term"@.len() == 19 && "flowgate_messages_emitted_total"@.len() == 31);
    }
    assert("flowgate_pid_p_term"@ != "flowgate_messages_rejected_total"@) by {
        reveal_strlit("flowgate_pid_p_term");
        reveal_strlit("flowgate_messages_rejected_total");
        assert("flowgate_pid_p_term"@.len() == 19 && "flowgate_messages_rejected_total"@.len() == 32);
    }
    assert("flowgate_pid_p_term"@ != "flowgate_buffer_evicted_total"@) by {
        reveal_strlit("flowgate_pid_p_term");
        reveal_strlit("flowgate_buffer_evicted_total");
        assert("flowgate_pid_p_term"@.len() == 19 && "flowgate_buffer_evicted_total"@.len() == 29);
    }
    assert("flowgate_pid_p_term"@ != "flowgate_drain_skipped_quality_total"@) by {
        reveal_strlit("flowgate_pid_p_term");
        reveal_strlit("flowgate_drain_skipped_quality_total");
        assert("flowgate_pid_p_term"@.len() == 19 && "flowgate_drain_skipped_quality_total"@.len() == 36);
    }
    assert("flowgate_pid_p_term"@ != "flowgate_drain_skipped_backpressure_total"@) by {
        reveal_strlit("flowgate_pid_p_term");
        reveal_strlit("flowgate_drain_skipped_backpressure_total");
        assert("flowgate_pid_p_term"@.len() == 19 && "flowgate_drain_skipped_backpressure_total"@.len() == 41);
    }
    assert("flowgate_pid_p_term"@ != "producer_messages_published_total"@) by {
        reveal_strlit("flowgate_pid_p_term");
        reveal_strlit("producer_messages_published_total");
        assert("flowgate_pid_p_term"@.len() == 19 && "producer_messages_published_total"@.len() == 33);
    }
    assert("flowgate_pid_p_term"@ != "producer_publish_errors_total"@) by {
        reveal_strlit("flowgate_pid_p_term");
        reveal_strlit("producer_publish_errors_total");
        assert("flowgate_pid_p_term"@.len() == 19 && "producer_publish_errors_total"@.len() == 29);
    }
    assert("flowgate_pid_p_term"@ != "producer_batches_sent_total"@) by {
        reveal_strlit("flowgate_pid_p_term");
        reveal_strlit("producer_batches_sent_total");
        assert("flowgate_pid_p_term"@.len() == 19 && "producer_batches_sent_total"@.len() == 27);
    }
    assert("flowgate_pid_i_term"@ != "flowgate_messages_received_total"@) by {
        reveal_strlit("flowgate_pid_i_term");
        reveal_strlit("flowgate_messages_received_total");
        assert("flowgate_pid_i_term"@.len() == 19 && "flowgate_messages_received_total"@.len() == 32);
    }
    assert("flowgate_pid_i_term"@ != "flowgate_messages_emitted_total"@) by {
        reveal_strlit("flowgate_pid_i_term");
        reveal_strlit("flowgate_messages_emitted_total");
        assert("flowgate_pid_i_term"@.len() == 19 && "flowgate_messages_emitted_total"@.len() == 31);
    }
    assert("flowgate_pid_i_term"@ != "flowgate_messages_rejected_total"@) by {
        reveal_strlit("flowgate_pid_i_term");
        reveal_strlit("flowgate_messages_rejected_total");
        assert("flowgate_pid_i_term"@.len() == 19 && "flowgate_messages_rejected_total"@.len() == 32);
    }
    assert("flowgate_pid_i_term"@ != "flowgate_buffer_evicted_total"@) by {
        reveal_strlit("flowgate_pid_i_term");
        reveal_strlit("flowgate_buffer_evicted_total");
        assert("flowgate_pid_i_term"@.len() == 19 && "flowgate_buffer_evicted_total"@.len() == 29);
    }
    assert("flowgate_pid_i_term"@ != "flowgate_drain_skipped_quality_total"@) by {
        reveal_strlit("flowgate_pid_i_term");
        reveal_strlit("flowgate_drain_skipped_quality_total");
        assert("flowgate_pid_i_term"@.len() == 19 && "flowgate_drain_skipped_quality_total"@.len() == 36);
    }
    assert("flowgate_pid_i_term"@ != "flowgate_drain_skipped_backpressure_total"@) by {
        reveal_strlit("flowgate_pid_i_term");
        reveal_strlit("flowgate_drain_skipped_backpressure_total");
        assert("flowgate_pid_i_term"@.len() == 19 && "flowgate_drain_skipped_backpressure_total"@.len() == 41);
    }
    assert("flowgate_pid_i_term"@ != "producer_messages_published_total"@) by {
        reveal_strlit("flowgate_pid_i_term");
        reveal_strlit("producer_messages_published_total");
        assert("flowgate_pid_i_term"@.len() == 19 && "producer_messages_published_total"@.len() == 33);
    }
    assert("flowgate_pid_i_term"@ != "producer_publish_errors_total"@) by {
        reveal_strlit("flowgate_pid_i_term");
        reveal_strlit("producer_publish_errors_total");
        assert("flowgate_pid_i_term"@.len() == 19 && "producer_publish_errors_total"@.len() == 29);
    }
    assert("flowgate_pid_i_term"@ != "producer_batches_sent_total"@) by {
        reveal_strlit("flowgate_pid_i_term");
        reveal_strlit("producer_batches_sent_total");
        assert("flowgate_pid_i_term"@.len() == 19 && "producer_batches_sent_total"@.len() == 27);
    }
    assert("flowgate_pid_d_term"@ != "flowgate_messages_received_total"@) by {
        reveal_strlit("flowgate_pid_d_term");
        reveal_strlit("flowgate_messages_received_total");
        assert("flowgate_pid_d_term"@.len() == 19 && "flowgate_messages_received_total"@.len() == 32);
    }
    assert("flowgate_pid_d_term"@ != "flowgate_messages_emitted_total"@) by {
        reveal_strlit("flowgate_pid_d_term");
        reveal_strlit("flowgate_messages_emitted_total");
        assert("flowgate_pid_d_term"@.len() == 19 && "flowgate_messages_emitted_total"@.len() == 31);
    }
    assert("flowgate_pid_d_term"@ != "flowgate_messages_rejected_total"@) by {
        reveal_strlit("flowgate_pid_d_term");
        reveal_strlit("flowgate_messages_rejected_total");
        assert("flowgate_pid_d_term"@.len() == 19 && "flowgate_messages_rejected_total"@.len() == 32);
    }
    assert("flowgate_pid_d_term"@ != "flowgate_buffer_evicted_total"@) by {
        reveal_strlit("flowgate_pid_d_term");
        reveal_strlit("flowgate_buffer_evicted_total");
        assert("flowgate_pid_d_term"@.len() == 19 && "flowgate_buffer_evicted_total"@.len() == 29);
    }
    assert("flowgate_pid_d_term"@ != "flowgate_drain_skipped_quality_total"@) by {
        reveal_strlit("flowgate_pid_d_term");
        reveal_strlit("flowgate_drain_skipped_quality_total");
        assert("flowgate_pid_d_term"@.len() == 19 && "flowgate_drain_skipped_quality_total"@.len() == 36);
    }
    assert("flowgate_pid_d_term"@ != "flowgate_drain_skipped_backpressure_total"@) by {
        reveal_strlit("flowgate_pid_d_term");
        reveal_strlit("flowgate_drain_skipped_backpressure_total");
        assert("flowgate_pid_d_term"@.len() == 19 && "flowgate_drain_skipped_backpressure_total"@.len() == 41);
    }
    assert("flowgate_pid_d_term"@ != "producer_messages_published_total"@) by {
        reveal_strlit("flowgate_pid_d_term");
        reveal_strlit("producer_messages_published_total");
        assert("flowgate_pid_d_term"@.len() == 19 && "producer_messages_published_total"@.len() == 33);
    }
    assert("flowgate_pid_d_term"@ != "producer_publish_errors_total"@) by {
        reveal_strlit("flowgate_pid_d_term");
        reveal_strlit("producer_publish_errors_total");
        assert("flowgate_pid_d_term"@.len() == 19 && "producer_publish_errors_total"@.len() == 29);
    }
    assert("flowgate_pid_d_term"@ != "producer_batches_sent_total"@) by {
        reveal_strlit("flowgate_pid_d_term");
        reveal_strlit("producer_batches_sent_total");
        assert("flowgate_pid_d_term"@.len() == 19 && "producer_batches_sent_total"@.len() == 27);
    }
    assert("flowgate_controller_state"@ != "flowgate_messages_received_total"@) by {
        reveal_strlit("flowgate_controller_state");
        reveal_strlit("flowgate_messages_received_total");
        assert("flowgate_controller_state"@.len() == 25 && "flowgate_messages_received_total"@.len() == 32);
    }
    assert("flowgate_controller_state"@ != "flowgate_messages_emitted_total"@) by {
        reveal_strlit("flowgate_controller_state");
        reveal_strlit("flowgate_messages_emitted_total");
        assert("flowgate_controller_state"@.len() == 25 && "flowgate_messages_emitted_total"@.len() == 31);
    }
    assert("flowgate_controller_state"@ != "flowgate_messages_rejected_total"@) by {
        reveal_strlit("flowgate_controller_state");
        reveal_strlit("flowgate_messages_rejected_total");
        assert("flowgate_controller_state"@.len() == 25 && "flowgate_messages_rejected_total"@.len() == 32);
    }
    assert("flowgate_controller_state"@ != "flowgate_buffer_evicted_total"@) by {
        reveal_strlit("flowgate_controller_state");
        reveal_strlit("flowgate_buffer_evicted_total");
        assert("flowgate_controller_state"@.len() == 25 && "flowgate_buffer_evicted_total"@.len() == 29);
    }
    assert("flowgate_controller_state"@ != "flowgate_drain_skipped_quality_total"@) by {
        reveal_strlit("flowgate_controller_state");
        reveal_strlit("flowgate_drain_skipped_quality_total");
        assert("flowgate_controller_state"@.len() == 25 && "flowgate_drain_skipped_quality_total"@.len() == 36);
    }
    assert("flowgate_controller_state"@ != "flowgate_drain_skipped_backpressure_total"@) by {
        reveal_strlit("flowgate_controller_state");
        reveal_strlit("flowgate_drain_skipped_backpressure_total");
        assert("flowgate_controller_state"@.len() == 25 && "flowgate_drain_skipped_backpressure_total"@.len() == 41);
    }
    assert("flowgate_controller_state"@ != "producer_messages_published_total"@) by {
        reveal_strlit("flowgate_controller_state");
        reveal_strlit("producer_messages_published_total");
        assert("flowgate_controller_state"@.len() == 25 && "producer_messages_published_total"@.len() == 33);
    }
    assert("flowgate_controller_state"@ != "producer_publish_errors_total"@) by {
        reveal_strlit("flowgate_controller_state");
        reveal_strlit("producer_publish_errors_total");
        assert("flowgate_controller_state"@.len() == 25 && "producer_publish_errors_total"@.len() == 29);
    }
    assert("flowgate_controller_state"@ != "producer_batches_sent_total"@) by {
        reveal_strlit("flowgate_controller_state");
        reveal_strlit("producer_batches_sent_total");
        assert("flowgate_controller_state"@.len() == 25 && "producer_batches_sent_total"@.len() == 27);
    }
    assert("flowgate_warmup_samples_collected"@ != "flowgate_messages_received_total"@) by {
        reveal_strlit("flowgate_warmup_samples_collected");
        reveal_strlit("flowgate_messages_received_total");
        assert("flowgate_warmup_samples_collected"@.len() == 33 && "flowgate_messages_received_total"@.len() == 32);
    }
    assert("flowgate_warmup_samples_collected"@ != "flowgate_messages_emitted_total"@) by {
        reveal_strlit("flowgate_warmup_samples_collected");
        reveal_strlit("flowgate_messages_emitted_total");
        assert("flowgate_warmup_samples_collected"@.len() == 33 && "flowgate_messages_emitted_total"@.len() == 31);
    }
    assert("flowgate_warmup_samples_collected"@ != "flowgate_messages_rejected_total"@) by {
        reveal_strlit("flowgate_warmup_samples_collected");
        reveal_strlit("flowgate_messages_rejected_total");
        assert("flowgate_warmup_samples_collected"@.len() == 33 && "flowgate_messages_rejected_total"@.len() == 32);
    }
    assert("flowgate_warmup_samples_collected"@ != "flowgate_buffer_evicted_total"@) by {
        reveal_strlit("flowgate_warmup_samples_collected");
        reveal_strlit("flowgate_buffer_evicted_total");
        assert("flowgate_warmup_samples_collected"@.len() == 33 && "flowgate_buffer_evicted_total"@.len() == 29);
    }
    assert("flowgate_warmup_samples_collected"@ != "flowgate_drain_skipped_quality_total"@) by {
        reveal_strlit("flowgate_warmup_samples_collected");
        reveal_strlit("flowgate_drain_skipped_quality_total");
        assert("flowgate_warmup_samples_collected"@.len() == 33 && "flowgate_drain_skipped_quality_total"@.len() == 36);
    }
    assert("flowgate_warmup_samples_collected"@ != "flowgate_drain_skipped_backpressure_total"@) by {
        reveal_strlit("flowgate_warmup_samples_collected");
        reveal_strlit("flowgate_drain_skipped_backpressure_total");
        assert("flowgate_warmup_samples_collected"@.len() == 33 && "flowgate_drain_skipped_backpressure_total"@.len() == 41);
    }
    assert("flowgate_warmup_samples_collected"@ != "producer_messages_published_total"@) by {
        reveal_strlit("flowgate_warmup_samples_collected");
        reveal_strlit("producer_messages_published_total");
        assert("flowgate_warmup_samples_collected"@[0] != "producer_messages_published_total"@[0]);
    }
    assert("flowgate_warmup_samples_collected"@ != "producer_publish_errors_total"@) by {
        reveal_strlit("flowgate_warmup_samples_collected");
        reveal_strlit("producer_publish_errors_total");
        assert("flowgate_warmup_samples_collected"@.len() == 33 && "producer_publish_errors_total"@.len() == 29);
    }
    assert("flowgate_warmup_samples_collected"@ != "producer_batches_sent_total"@) by {
        reveal_strlit("flowgate_warmup_samples_collected");
        reveal_strlit("producer_batches_sent_total");
        assert("flowgate_warmup_samples_collected"@.len() == 33 && "producer_batches_sent_total"@.len() == 27);
    }
    assert("flowgate_buffer_size"@ != "flowgate_messages_received_total"@) by {
        reveal_strlit("flowgate_buffer_size");
        reveal_strlit("flowgate_messages_received_total");
        assert("flowgate_buffer_size"@.len() == 20 && "flowgate_messages_received_total"@.len() == 32);
    }
    assert("flowgate_buffer_size"@ != "flowgate_messages_emitted_total"@) by {
        reveal_strlit("flowgate_buffer_size");
        reveal_strlit("flowgate_messages_emitted_total");
        assert("flowgate_buffer_size"@.len() == 20 && "flowgate_messages_emitted_total"@.len() == 31);
    }
    assert("flowgate_buffer_size"@ != "flowgate_messages_rejected_total"@) by {
        reveal_strlit("flowgate_buffer_size");
        reveal_strlit("flowgate_messages_rejected_total");
        assert("flowgate_buffer_size"@.len() == 20 && "flowgate_messages_rejected_total"@.len() == 32);
    }
    assert("flowgate_buffer_size"@ != "flowgate_buffer_evicted_total"@) by {
        reveal_strlit("flowgate_buffer_size");
        reveal_strlit("flowgate_buffer_evicted_total");
        assert("flowgate_buffer_size"@.len() == 20 && "flowgate_buffer_evicted_total"@.len() == 29);
    }
    assert("flowgate_buffer_size"@ != "flowgate_drain_skipped_quality_total"@) by {
        reveal_strlit("flowgate_buffer_size");
        reveal_strlit("flowgate_drain_skipped_quality_total");
        assert("flowgate_buffer_size"@.len() == 20 && "flowgate_drain_skipped_quality_total"@.len() == 36);
    }
    assert("flowgate_buffer_size"@ != "flowgate_drain_skipped_backpressure_total"@) by {
        reveal_strlit("flowgate_buffer_size");
        reveal_strlit("flowgate_drain_skipped_backpressure_total");
        assert("flowgate_buffer_size"@.len() == 20 && "flowgate_drain_skipped_backpressure_total"@.len() == 41);
    }
    assert("flowgate_buffer_size"@ != "producer_messages_published_total"@) by {
        reveal_strlit("flowgate_buffer_size");
        reveal_strlit("producer_messages_published_total");
        assert("flowgate_buffer_size"@.len() == 20 && "producer_messages_published_total"@.len() == 33);
    }
    assert("flowgate_buffer_size"@ != "producer_publish_errors_total"@) by {
        reveal_strlit("flowgate_buffer_size");
        reveal_strlit("producer_publish_errors_total");
        assert("flowgate_buffer_size"@.len() == 20 && "producer_publish_errors_total"@.len() == 29);
    }
    assert("flowgate_buffer_size"@ != "producer_batches_sent_total"@) by {
        reveal_strlit("flowgate_buffer_size");
        reveal_strlit("producer_batches_sent_total");
        assert("flowgate_buffer_size"@.len() == 20 && "producer_batches_sent_total"@.len() == 27);
    }
    assert("flowgate_ingestion_rate"@ != "flowgate_messages_received_total"@) by {
        reveal_strlit("flowgate_ingestion_rate");
        reveal_strlit("flowgate_messages_received_total");
        assert("flowgate_ingestion_rate"@.len() == 23 && "flowgate_messages_received_total"@.len() == 32);
    }
    assert("flowgate_ingestion_rate"@ != "flowgate_messages_emitted_total"@) by {
        reveal_strlit("flowgate_ingestion_rate");
        reveal_strlit("flowgate_messages_emitted_total");
        assert("flowgate_ingestion_rate"@.len() == 23 && "flowgate_messages_emitted_total"@.len() == 31);
    }
    assert("flowgate_ingestion_rate"@ != "flowgate_messages_rejected_total"@) by {
        reveal_strlit("flowgate_ingestion_rate");
        reveal_strlit("flowgate_messages_rejected_total");
        assert("flowgate_ingestion_rate"@.len() == 23 && "flowgate_messages_rejected_total"@.len() == 32);
    }
    assert("flowgate_ingestion_rate"@ != "flowgate_buffer_evicted_total"@) by {
        reveal_strlit("flowgate_ingestion_rate");
        reveal_strlit("flowgate_buffer_evicted_total");
        assert("flowgate_ingestion_rate"@.len() == 23 && "flowgate_buffer_evicted_total"@.len() == 29);
    }
    assert("flowgate_ingestion_rate"@ != "flowgate_drain_skipped_quality_total"@) by {
        reveal_strlit("flowgate_ingestion_rate");
        reveal_strlit("flowgate_drain_skipped_quality_total");
        assert("flowgate_ingestion_rate"@.len() == 23 && "flowgate_drain_skipped_quality_total"@.len() == 36);
    }
    assert("flowgate_ingestion_rate"@ != "flowgate_drain_skipped_backpressure_total"@) by {
        reveal_strlit("flowgate_ingestion_rate");
        reveal_strlit("flowgate_drain_skipped_backpressure_total");
        assert("flowgate_ingestion_rate"@.len() == 23 && "flowgate_drain_skipped_backpressure_total"@.len() == 41);
    }
    assert("flowgate_ingestion_rate"@ != "producer_messages_published_total"@) by {
        reveal_strlit("flowgate_ingestion_rate");
        reveal_strlit("producer_messages_published_total");
        assert("flowgate_ingestion_rate"@.len() == 23 && "producer_messages_published_total"@.len() == 33);
    }
    assert("flowgate_ingestion_rate"@ != "producer_publish_errors_total"@) by {
        reveal_strlit("flowgate_ingestion_rate");
        reveal_strlit("producer_publish_errors_total");
        assert("flowgate_ingestion_rate"@.len() == 23 && "producer_publish_errors_total"@.len() == 29);
    }
    assert("flowgate_ingestion_rate"@ != "producer_batches_sent_total"@) by {
        reveal_strlit("flowgate_ingestion_rate");
        reveal_strlit("producer_batches_sent_total");
        assert("flowgate_ingestion_rate"@.len() == 23 && "producer_batches_sent_total"@.len() == 27);
    }
    assert("flowgate_publish_latency_ms"@ != "flowgate_messages_received_total"@) by {
        reveal_strlit("flowgate_publish_latency_ms");
        reveal_strlit("flowgate_messages_received_total");
        assert("flowgate_publish_latency_ms"@.len() == 27 && "flowgate_messages_received_total"@.len() == 32);
    }
    assert("flowgate_publish_latency_ms"@ != "flowgate_messages_emitted_total"@) by {
        reveal_strlit("flowgate_publish_latency_ms");
        reveal_strlit("flowgate_messages_emitted_total");
        assert("flowgate_publish_latency_ms"@.len() == 27 && "flowgate_messages_emitted_total"@.len() == 31);
    }
    assert("flowgate_publish_latency_ms"@ != "flowgate_messages_rejected_total"@) by {
        reveal_strlit("flowgate_publish_latency_ms");
        reveal_strlit("flowgate_messages_rejected_total");
        assert("flowgate_publish_latency_ms"@.len() == 27 && "flowgate_messages_rejected_total"@.len() == 32);
    }
    assert("flowgate_publish_latency_ms"@ != "flowgate_buffer_evicted_total"@) by {
        reveal_strlit("flowgate_publish_latency_ms");
        reveal_strlit("flowgate_buffer_evicted_total");
        assert("flowgate_publish_latency_ms"@.len() == 27 && "flowgate_buffer_evicted_total"@.len() == 29);
    }
    assert("flowgate_publish_latency_ms"@ != "flowgate_drain_skipped_quality_total"@) by {
        reveal_strlit("flowgate_publish_latency_ms");
        reveal_strlit("flowgate_drain_skipped_quality_total");
        assert("flowgate_publish_latency_ms"@.len() == 27 && "flowgate_drain_skipped_quality_total"@.len() == 36);
    }
    assert("flowgate_publish_latency_ms"@ != "flowgate_drain_skipped_backpressure_total"@) by {
        reveal_strlit("flowgate_publish_latency_ms");
        reveal_strlit("flowgate_drain_skipped_backpressure_total");
        assert("flowgate_publish_latency_ms"@.len() == 27 && "flowgate_drain_skipped_backpressure_total"@.len() == 41);
    }
    assert("flowgate_publish_latency_ms"@ != "producer_messages_published_total"@) by {
        reveal_strlit("flowgate_publish_latency_ms");
        reveal_strlit("producer_messages_published_total");
        assert("flowgate_publish_latency_ms"@.len() == 27 && "producer_messages_published_total"@.len() == 33);
    }
    assert("flowgate_publish_latency_ms"@ != "producer_publish_errors_total"@) by {
        reveal_strlit("flowgate_publish_latency_ms");
        reveal_strlit("producer_publish_errors_total");
        assert("flowgate_publish_latency_ms"@.len() == 27 && "producer_publish_errors_total"@.len() == 29);
    }
    assert("flowgate_publish_latency_ms"@ != "producer_batches_sent_total"@) by {
        reveal_strlit("flowgate_publish_latency_ms");
        reveal_strlit("producer_batches_sent_total");
        assert("flowgate_publish_latency_ms"@[0] != "producer_batches_sent_total"@[0]);
    }
    assert("flowgate_avg_emitted_score"@ != "flowgate_messages_received_total"@) by {
        reveal_strlit("flowgate_avg_emitted_score");
        reveal_strlit("flowgate_messages_received_total");
        assert("flowgate_avg_emitted_score"@.len() == 26 && "flowgate_messages_received_total"@.len() == 32);
    }
    assert("flowgate_avg_emitted_score"@ != "flowgate_messages_emitted_total"@) by {
        reveal_strlit("flowgate_avg_emitted_score");
        reveal_strlit("flowgate_messages_emitted_total");
        assert("flowgate_avg_emitted_score"@.len() == 26 && "flowgate_messages_emitted_total"@.len() == 31);
    }
    assert("flowgate_avg_emitted_score"@ != "flowgate_messages_rejected_total"@) by {
        reveal_strlit("flowgate_avg_emitted_score");
        reveal_strlit("flowgate_messages_rejected_total");
        assert("flowgate_avg_emitted_score"@.len() == 26 && "flowgate_messages_rejected_total"@.len() == 32);
    }
    assert("flowgate_avg_emitted_score"@ != "flowgate_buffer_evicted_total"@) by {
        reveal_strlit("flowgate_avg_emitted_score");
        reveal_strlit("flowgate_buffer_evicted_total");
        assert("flowgate_avg_emitted_score"@.len() == 26 && "flowgate_buffer_evicted_total"@.len() == 29);
    }
    assert("flowgate_avg_emitted_score"@ != "flowgate_drain_skipped_quality_total"@) by {
        reveal_strlit("flowgate_avg_emitted_score");
        reveal_strlit("flowgate_drain_skipped_quality_total");
        assert("flowgate_avg_emitted_score"@.len() == 26 && "flowgate_drain_skipped_quality_total"@.len() == 36);
    }
    assert("flowgate_avg_emitted_score"@ != "flowgate_drain_skipped_backpressure_total"@) by {
        reveal_strlit("flowgate_avg_emitted_score");
        reveal_strlit("flowgate_drain_skipped_backpressure_total");
        assert("flowgate_avg_emitted_score"@.len() == 26 && "flowgate_drain_skipped_backpressure_total"@.len() == 41);
    }
    assert("flowgate_avg_emitted_score"@ != "producer_messages_published_total"@) by {
        reveal_strlit("flowgate_avg_emitted_score");
        reveal_strlit("producer_messages_published_total");
        assert("flowgate_avg_emitted_score"@.len() == 26 && "producer_messages_published_total"@.len() == 33);
    }
    assert("flowgate_avg_emitted_score"@ != "producer_publish_errors_total"@) by {
        reveal_strlit("flowgate_avg_emitted_score");
        reveal_strlit("producer_publish_errors_total");
        assert("flowgate_avg_emitted_score"@.len() == 26 && "producer_publish_errors_total"@.len() == 29);
    }
    assert("flowgate_avg_emitted_score"@ != "producer_batches_sent_total"@) by {
        reveal_strlit("flowgate_avg_emitted_score");
        reveal_strlit("producer_batches_sent_total");
        assert("flowgate_avg_emitted_score"@.len() == 26 && "producer_batches_sent_total"@.len() == 27);
    }
    assert("flowgate_avg_latency_ms"@ != "flowgate_messages_received_total"@) by {
        reveal_strlit("flowgate_avg_latency_ms");
        reveal_strlit("flowgate_messages_received_total");
        assert("flowgate_avg_latency_ms"@.len() == 23 && "flowgate_messages_received_total"@.len() == 32);
    }
    assert("flowgate_avg_latency_ms"@ != "flowgate_messages_emitted_total"@) by {
        reveal_strlit("flowgate_avg_latency_ms");
        reveal_strlit("flowgate_messages_emitted_total");
        assert("flowgate_avg_latency_ms"@.len() == 23 && "flowgate_messages_emitted_total"@.len() == 31);
    }
    assert("flowgate_avg_latency_ms"@ != "flowgate_messages_rejected_total"@) by {
        reveal_strlit("flowgate_avg_latency_ms");
        reveal_strlit("flowgate_messages_rejected_total");
        assert("flowgate_avg_latency_ms"@.len() == 23 && "flowgate_messages_rejected_total"@.len() == 32);
    }
    assert("flowgate_avg_latency_ms"@ != "flowgate_buffer_evicted_total"@) by {
        reveal_strlit("flowgate_avg_latency_ms");
        reveal_strlit("flowgate_buffer_evicted_total");
        assert("flowgate_avg_latency_ms"@.len() == 23 && "flowgate_buffer_evicted_total"@.len() == 29);
    }
    assert("flowgate_avg_latency_ms"@ != "flowgate_drain_skipped_quality_total"@) by {
        reveal_strlit("flowgate_avg_latency_ms");
        reveal_strlit("flowgate_drain_skipped_quality_total");
        assert("flowgate_avg_latency_ms"@.len() == 23 && "flowgate_drain_skipped_quality_total"@.len() == 36);
    }
    assert("flowgate_avg_latency_ms"@ != "flowgate_drain_skipped_backpressure_total"@) by {
        reveal_strlit("flowgate_avg_latency_ms");
        reveal_strlit("flowgate_drain_skipped_backpressure_total");
        assert("flowgate_avg_latency_ms"@.len() == 23 && "flowgate_drain_skipped_backpressure_total"@.len() == 41);
    }
    assert("flowgate_avg_latency_ms"@ != "producer_messages_published_total"@) by {
        reveal_strlit("flowgate_avg_latency_ms");
        reveal_strlit("producer_messages_published_total");
        assert("flowgate_avg_latency_ms"@.len() == 23 && "producer_messages_published_total"@.len() == 33);
    }
    assert("flowgate_avg_latency_ms"@ != "producer_publish_errors_total"@) by {
        reveal_strlit("flowgate_avg_latency_ms");
        reveal_strlit("producer_publish_errors_total");
        assert("flowgate_avg_latency_ms"@.len() == 23 && "producer_publish_errors_total"@.len() == 29);
    }
    assert("flowgate_avg_latency_ms"@ != "producer_batches_sent_total"@) by {
        reveal_strlit("flowgate_avg_latency_ms");
        reveal_strlit("producer_batches_sent_total");
        assert("flowgate_avg_latency_ms"@.len() == 23 && "producer_batches_sent_total"@.len() == 27);
    }
    assert("producer_active_clients"@ != "flowgate_messages_received_total"@) by {
        reveal_strlit("producer_active_clients");
        reveal_strlit("flowgate_messages_received_total");
        assert("producer_active_clients"@.len() == 23 && "flowgate_messages_received_total"@.len() == 32);
    }
    assert("producer_active_clients"@ != "flowgate_messages_emitted_total"@) by {
        reveal_strlit("producer_active_clients");
        reveal_strlit("flowgate_messages_emitted_total");
        assert("producer_active_clients"@.len() == 23 && "flowgate_messages_emitted_total"@.len() == 31);
    }
    assert("producer_active_clients"@ != "flowgate_messages_rejected_total"@) by {
        reveal_strlit("producer_active_clients");
        reveal_strlit("flowgate_messages_rejected_total");
        assert("producer_active_clients"@.len() == 23 && "flowgate_messages_rejected_total"@.len() == 32);
    }
    assert("producer_active_clients"@ != "flowgate_buffer_evicted_total"@) by {
        reveal_strlit("producer_active_clients");
        reveal_strlit("flowgate_buffer_evicted_total");
        assert("producer_active_clients"@.len() == 23 && "flowgate_buffer_evicted_total"@.len() == 29);
    }
    assert("producer_active_clients"@ != "flowgate_drain_skipped_quality_total"@) by {
        reveal_strlit("producer_active_clients");
        reveal_strlit("flowgate_drain_skipped_quality_total");
        assert("producer_active_clients"@.len() == 23 && "flowgate_drain_skipped_quality_total"@.len() == 36);
    }
    assert("producer_active_clients"@ != "flowgate_drain_skipped_backpressure_total"@) by {
        reveal_strlit("producer_active_clients");
        reveal_strlit("flowgate_drain_skipped_backpressure_total");
        assert("producer_active_clients"@.len() == 23 && "flowgate_drain_skipped_backpressure_total"@.len() == 41);
    }
    assert("producer_active_clients"@ != "producer_messages_published_total"@) by {
        reveal_strlit("producer_active_clients");
        reveal_strlit("producer_messages_published_total");
        assert("producer_active_clients"@.len() == 23 && "producer_messages_published_total"@.len() == 33);
    }
    assert("producer_active_clients"@ != "producer_publish_errors_total"@) by {
        reveal_strlit("producer_active_clients");
        reveal_strlit("producer_publish_errors_total");
        assert("producer_active_clients"@.len() == 23 && "producer_publish_errors_total"@.len() == 29);
    }
    assert("producer_active_clients"@ != "producer_batches_sent_total"@) by {
        reveal_strlit("producer_active_clients");
        reveal_strlit("producer_batches_sent_total");
        assert("producer_active_clients"@.len() == 23 && "producer_batches_sent_total"@.len() == 27);
    }
    assert("producer_backpressure"@ != "flowgate_messages_received_total"@) by {
        reveal_strlit("producer_backpressure");
        reveal_strlit("flowgate_messages_received_total");
        assert("producer_backpressure"@.len() == 21 && "flowgate_messages_received_total"@.len() == 32);
    }
    assert("producer_backpressure"@ != "flowgate_messages_emitted_total"@) by {
        reveal_strlit("producer_backpressure");
        reveal_strlit("flowgate_messages_emitted_total");
        assert("producer_backpressure"@.len() == 21 && "flowgate_messages_emitted_total"@.len() == 31);
    }
    assert("producer_backpressure"@ != "flowgate_messages_rejected_total"@) by {
        reveal_strlit("producer_backpressure");
        reveal_strlit("flowgate_messages_rejected_total");
        assert("producer_backpressure"@.len() == 21 && "flowgate_messages_rejected_total"@.len() == 32);
    }
    assert("producer_backpressure"@ != "flowgate_buffer_evicted_total"@) by {
        reveal_strlit("producer_backpressure");
        reveal_strlit("flowgate_buffer_evicted_total");
        assert("producer_backpressure"@.len() == 21 && "flowgate_buffer_evicted_total"@.len() == 29);
    }
    assert("producer_backpressure"@ != "flowgate_drain_skipped_quality_total"@) by {
        reveal_strlit("producer_backpressure");
        reveal_strlit("flowgate_drain_skipped_quality_total");
        assert("producer_backpressure"@.len() == 21 && "flowgate_drain_skipped_quality_total"@.len() == 36);
    }
    assert("producer_backpressure"@ != "flowgate_drain_skipped_backpressure_total"@) by {
        reveal_strlit("producer_backpressure");
        reveal_strlit("flowgate_drain_skipped_backpressure_total");
        assert("producer_backpressure"@.len() == 21 && "flowgate_drain_skipped_backpressure_total"@.len() == 41);
    }
    assert("producer_backpressure"@ != "producer_messages_published_total"@) by {
        reveal_strlit("producer_backpressure");
        reveal_strlit("producer_messages_published_total");
        assert("producer_backpressure"@.len() == 21 && "producer_messages_published_total"@.len() == 33);
    }
    assert("producer_backpressure"@ != "producer_publish_errors_total"@) by {
        reveal_strlit("producer_backpressure");
        reveal_strlit("producer_publish_errors_total");
        assert("producer_backpressure"@.len() == 21 && "producer_publish_errors_total"@.len() == 29);
    }
    assert("producer_backpressure"@ != "producer_batches_sent_total"@) by {
        reveal_strlit("producer_backpressure");
        reveal_strlit("producer_batches_sent_total");
        assert("producer_backpressure"@.len() == 21 && "producer_batches_sent_total"@.len() == 27);
    }
}

/// Whether a scraped metric is a counter: counters of several replicas are
/// added up, gauges are averaged.
pub fn is_counter_metric(name: &str) -> (r: bool)
    ensures
        r == counter_metric(name@),
{
    str_eq(name, "flowgate_messages_received_total") || str_eq(name, "flowgate_messages_emitted_total")
        || str_eq(name, "flowgate_messages_rejected_total") || str_eq(name, "flowgate_buffer_evicted_total")
        || str_eq(name, "flowgate_drain_skipped_quality_total") || str_eq(
        name,
        "flowgate_drain_skipped_backpressure_total",
    ) || str_eq(name, "producer_messages_published_total") || str_eq(name, "producer_publish_errors_total")
        || str_eq(name, "producer_batches_sent_total")
}

/// `s` with every leading copy of `p` removed, as `str::trim_start_matches`
/// does with a non-empty pattern.
pub open spec fn trim_leading(s: Seq<u8>, p: Seq<u8>) -> Seq<u8>
    decreases s.len(),
{
    if p.len() > 0 && s.len() >= p.len() && s.take(p.len() as int) == p {
        trim_leading(s.skip(p.len() as int), p)
    } else {
        s
    }
}

/// The bytes of "http://".
pub open spec fn http_scheme() -> Seq<u8> {
    seq![104u8, 116u8, 116u8, 112u8, 58u8, 47u8, 47u8]
}

/// The bytes of "https://".
pub open spec fn https_scheme() -> Seq<u8> {
    seq![104u8, 116u8, 116u8, 112u8, 115u8, 58u8, 47u8, 47u8]
}

/// The host and port of a metrics base URL: the URL without its leading
/// "http://" copies, then without its leading "https://" copies.
pub open spec fn host_port_of(url: Seq<u8>) -> Seq<u8> {
    trim_leading(trim_leading(url, http_scheme()), https_scheme())
}

/// Whether `p` occurs in `s` at `at`.
fn occurs_at(s: &[u8], at: usize, p: &Vec<u8>) -> (r: bool)
    requires
        at <= s@.len(),
    ensures
        r == (s@.len() - at >= p@.len() && s@.skip(at as int).take(p@.len() as int) == p@),
{
    if s.len() - at < p.len() {
        return false;
    }
    let n = s.len();
    let mut i: usize = 0;
    while i < p.len()
        invariant
            n == s@.len(),
            at + p@.len() <= s@.len(),
            i <= p@.len(),
            forall|j: int| 0 <= j < i ==> s@[at + j] == p@[j],
        decreases p@.len() - i,
    {
        if s[at + i] != p[i] {
            assert(s@.skip(at as int).take(p@.len() as int)[i as int] != p@[i as int]);
            return false;
        }
        i = i + 1;
    }
    assert(s@.skip(at as int).take(p@.len() as int) =~= p@);
    true
}

/// Where `trim_leading(s.skip(from), p)` starts in `s`.
fn skip_leading(s: &[u8], from: usize, p: &Vec<u8>) -> (r: usize)
    requires
        from <= s@.len(),
        p@.len() > 0,
    ensures
        from <= r <= s@.len(),
        s@.skip(r as int) == trim_leading(s@.skip(from as int), p@),
{
    let n = s.len();
    let mut at = from;
    while occurs_at(s, at, p)
        invariant
            n == s@.len(),
            from <= at <= s@.len(),
            p@.len() > 0,
            trim_leading(s@.skip(at as int), p@) == trim_leading(s@.skip(from as int), p@),
        decreases s@.len() - at,
    {
        assert(s@.skip(at as int).skip(p@.len() as int) =~= s@.skip(at + p@.len()));
        at = at + p.len();
    }
    at
}

/// Where the host and port begin in a metrics base URL: the offset past its
/// leading "http://" copies and then its leading "https://" copies.
pub fn host_port_start(url: &str) -> (r: usize)
    ensures
        r <= url.spec_bytes().len(),
        url.spec_bytes().skip(r as int) == host_port_of(url.spec_bytes()),
{
    let b = url.as_bytes();
    let http: Vec<u8> = vec![104u8, 116u8, 116u8, 112u8, 58u8, 47u8, 47u8];
    let https: Vec<u8> = vec![104u8, 116u8, 116u8, 112u8, 115u8, 58u8, 47u8, 47u8];
    assert(http@ =~= http_scheme());
    assert(https@ =~= https_scheme());
    assert(b@.skip(0) =~= b@);
    let first = skip_leading(b, 0, &http);
    skip_leading(b, first, &https)
}

} // verus!
